//! The pipeline planner: turns a flattened scene into a recording that
//! rasterizes it into a tiled image.
use vstd::prelude::*;

use crate::recording::{BufProxy, ImageProxy, Op, Recording, ResourceProxy};
use crate::shaders::{ImageFormat, Shaders, PATHTAG_REDUCE_WG, PATH_COARSE_WG};

verus! {

pub const TAG_MONOID_SIZE: u64 = 12;

pub const TILE_SIZE: u64 = 8;

pub const SEGMENT_SIZE: u64 = 24;

/// Number of tile headers the pipeline allocates.
pub const N_TILES: u64 = 4097;

/// Number of segments the pipeline allocates.
pub const N_SEGMENTS: u64 = 256;

/// Width and height of the target in tiles.
pub const TILES_PER_SIDE: u32 = 64;

/// Width and height of a tile in pixels.
pub const TILE_PIXELS: u32 = 16;

/// Tags are padded to a whole number of reduce workgroups of four tags each.
pub const TAG_ALIGNMENT: u32 = 1024;

/// Size of `Config` in bytes.
pub const CONFIG_SIZE: u64 = 56;

/// Pipeline constants uploaded once per render as configuration. Offsets are
/// in 32-bit words into the scene buffer.
#[derive(Clone, Copy, Debug, PartialEq, Eq, Structural)]
pub struct Config {
    pub width_in_tiles: u32,
    pub height_in_tiles: u32,
    pub target_width: u32,
    pub target_height: u32,
    pub n_drawobj: u32,
    pub n_path: u32,
    pub n_clip: u32,
    pub bin_data_start: u32,
    pub pathtag_base: u32,
    pub pathdata_base: u32,
    pub drawtag_base: u32,
    pub drawdata_base: u32,
    pub transform_base: u32,
    pub linewidth_base: u32,
}

/// A flattened scene: one tag byte per path element, and the path data.
#[derive(Clone, Debug)]
pub struct Scene {
    pub path_tags: Vec<u8>,
    pub path_data: Vec<u8>,
}

/// Why a scene cannot be planned.
#[derive(Clone, Copy, Debug, PartialEq, Eq, Structural)]
pub enum PlanError {
    /// The padded tags and the path data together do not fit in a buffer
    /// addressed by 32-bit byte offsets.
    SceneTooLarge,
}

/// `n` rounded up to a multiple of `a`.
pub open spec fn align_up_spec(n: int, a: int) -> int {
    if n % a == 0 {
        n
    } else {
        n - n % a + a
    }
}

impl Config {
    /// The fields in declaration order.
    pub open spec fn words(self) -> Seq<u32> {
        seq![
            self.width_in_tiles,
            self.height_in_tiles,
            self.target_width,
            self.target_height,
            self.n_drawobj,
            self.n_path,
            self.n_clip,
            self.bin_data_start,
            self.pathtag_base,
            self.pathdata_base,
            self.drawtag_base,
            self.drawdata_base,
            self.transform_base,
            self.linewidth_base,
        ]
    }

    pub fn to_words(&self) -> (r: Vec<u32>)
        ensures
            r@ == self.words(),
    {
        let r = vec![
            self.width_in_tiles,
            self.height_in_tiles,
            self.target_width,
            self.target_height,
            self.n_drawobj,
            self.n_path,
            self.n_clip,
            self.bin_data_start,
            self.pathtag_base,
            self.pathdata_base,
            self.drawtag_base,
            self.drawdata_base,
            self.transform_base,
            self.linewidth_base,
        ];
        assert(r@ =~= self.words());
        r
    }
}

/// The four bytes of `w`, least significant first.
pub open spec fn word_le_bytes(w: u32) -> Seq<u8> {
    seq![
        (w % 256) as u8,
        ((w / 256) % 256) as u8,
        ((w / 65536) % 256) as u8,
        (w / 16777216) as u8,
    ]
}

/// The words of `ws` laid out one after another, each least significant byte first.
pub open spec fn words_le_bytes(ws: Seq<u32>) -> Seq<u8>
    decreases ws.len(),
{
    if ws.len() == 0 {
        Seq::empty()
    } else {
        words_le_bytes(ws.drop_last()) + word_le_bytes(ws.last())
    }
}

proof fn lemma_words_le_bytes_len(ws: Seq<u32>)
    ensures
        words_le_bytes(ws).len() == 4 * ws.len(),
    decreases ws.len(),
{
    if ws.len() > 0 {
        lemma_words_le_bytes_len(ws.drop_last());
    }
}

/// The byte image of `words` as the device reads it.
pub fn words_to_bytes(words: &Vec<u32>) -> (r: Vec<u8>)
    ensures
        r@ == words_le_bytes(words@),
        r@.len() == 4 * words@.len(),
{
    let mut r: Vec<u8> = Vec::new();
    let mut i: usize = 0;
    while i < words.len()
        invariant
            i <= words@.len(),
            r@ == words_le_bytes(words@.subrange(0, i as int)),
        decreases words@.len() - i,
    {
        let w = words[i];
        r.push((w % 256) as u8);
        r.push(((w / 256) % 256) as u8);
        r.push(((w / 65536) % 256) as u8);
        r.push((w / 16777216) as u8);
        proof {
            assert(words@.subrange(0, i + 1).drop_last() =~= words@.subrange(0, i as int));
            assert(r@ =~= words_le_bytes(words@.subrange(0, i + 1)));
        }
        i = i + 1;
    }
    proof {
        assert(words@.subrange(0, i as int) =~= words@);
        lemma_words_le_bytes_len(words@);
    }
    r
}

/// Number of 32-bit words in `byte_size` bytes.
pub fn size_to_words(byte_size: usize) -> (r: u32)
    requires
        byte_size / 4 <= u32::MAX,
    ensures
        r as int == byte_size / 4,
{
    (byte_size / 4) as u32
}

/// `len` rounded up to a multiple of `alignment`.
pub fn align_up(len: usize, alignment: u32) -> (r: usize)
    requires
        alignment > 0,
        len + alignment <= usize::MAX + 1,
    ensures
        r as int == align_up_spec(len as int, alignment as int),
        r as int % alignment as int == 0,
        len <= r < len + alignment,
{
    let a = alignment as usize;
    let rem = len % a;
    proof {
        vstd::arithmetic::div_mod::lemma_fundamental_div_mod(len as int, a as int);
        vstd::arithmetic::div_mod::lemma_mod_multiples_basic(len as int / a as int, a as int);
        vstd::arithmetic::div_mod::lemma_mod_multiples_basic(len as int / a as int + 1, a as int);
        assert(a * (len as int / a as int + 1) == a * (len as int / a as int) + a) by (nonlinear_arith);
    }
    if rem == 0 {
        len
    } else {
        len - rem + a
    }
}

/// Bytes of the padded tag stream.
pub open spec fn padded_tags_len(n_tags: int) -> int {
    align_up_spec(n_tags, TAG_ALIGNMENT as int)
}

/// Whether the scene's upload fits 32-bit byte offsets.
pub open spec fn scene_fits(tags: Seq<u8>, data: Seq<u8>) -> bool {
    padded_tags_len(tags.len() as int) + data.len() <= u32::MAX
}

/// The scene buffer: the tags, zero padding up to the alignment, then the path data.
pub open spec fn scene_bytes(tags: Seq<u8>, data: Seq<u8>) -> Seq<u8> {
    tags + Seq::new((padded_tags_len(tags.len() as int) - tags.len()) as nat, |i: int| 0u8) + data
}

/// The configuration of a render whose tag stream holds `n_tags` tags.
pub open spec fn plan_config(n_tags: int) -> Config {
    Config {
        width_in_tiles: TILES_PER_SIDE,
        height_in_tiles: TILES_PER_SIDE,
        target_width: (TILES_PER_SIDE * TILE_PIXELS) as u32,
        target_height: (TILES_PER_SIDE * TILE_PIXELS) as u32,
        n_drawobj: 0,
        n_path: 0,
        n_clip: 0,
        bin_data_start: 0,
        pathtag_base: 0,
        pathdata_base: (padded_tags_len(n_tags) / 4) as u32,
        drawtag_base: 0,
        drawdata_base: 0,
        transform_base: 0,
        linewidth_base: 0,
    }
}

/// The labels of the proxies of a render, by id.
pub open spec fn plan_labels() -> Seq<Seq<char>> {
    seq![
        "scene"@,
        "config"@,
        "reduced_buf"@,
        "tagmonoid_buf"@,
        "tiles_buf"@,
        "segments_buf"@,
        "out_image"@,
    ]
}

/// The image a render writes.
pub open spec fn plan_image() -> ImageProxy {
    ImageProxy {
        width: (TILES_PER_SIDE * TILE_PIXELS) as u32,
        height: (TILES_PER_SIDE * TILE_PIXELS) as u32,
        format: ImageFormat::Rgba8,
        id: 6,
    }
}

/// The operations that render a scene: upload, reduce, scan, zero-fill of
/// the tile headers, path coarse, backdrop, fine. None is left out for an
/// empty scene.
pub open spec fn plan_ops(tags: Seq<u8>, data: Seq<u8>, sh: Shaders) -> Seq<Op> {
    let n = tags.len() as int;
    let wgs = padded_tags_len(n) / TAG_ALIGNMENT as int;
    let bytes = scene_bytes(tags, data);
    let scene_buf = ResourceProxy::Buf(BufProxy { size: bytes.len() as u64, id: 0 });
    let config_buf = ResourceProxy::Buf(BufProxy { size: CONFIG_SIZE, id: 1 });
    let reduced_buf = ResourceProxy::Buf(
        BufProxy { size: (wgs * TAG_MONOID_SIZE) as u64, id: 2 },
    );
    let tagmonoid_buf = ResourceProxy::Buf(
        BufProxy { size: (wgs * PATHTAG_REDUCE_WG * TAG_MONOID_SIZE) as u64, id: 3 },
    );
    let tiles = BufProxy { size: (N_TILES * TILE_SIZE) as u64, id: 4 };
    let tiles_buf = ResourceProxy::Buf(tiles);
    let segments_buf = ResourceProxy::Buf(
        BufProxy { size: (N_SEGMENTS * SEGMENT_SIZE) as u64, id: 5 },
    );
    let coarse_wgs = ((n + PATH_COARSE_WG - 1) / PATH_COARSE_WG as int) as u32;
    seq![
        Op::Upload(BufProxy { size: bytes.len() as u64, id: 0 }, bytes),
        Op::UploadUniform(
            BufProxy { size: CONFIG_SIZE, id: 1 },
            words_le_bytes(plan_config(n).words()),
        ),
        Op::Dispatch(
            sh.pathtag_reduce,
            (wgs as u32, 1, 1),
            seq![config_buf, scene_buf, reduced_buf],
        ),
        Op::Dispatch(
            sh.pathtag_scan,
            (wgs as u32, 1, 1),
            seq![config_buf, scene_buf, reduced_buf, tagmonoid_buf],
        ),
        Op::Clear(tiles),
        Op::Dispatch(
            sh.path_coarse,
            (coarse_wgs, 1, 1),
            seq![config_buf, scene_buf, tagmonoid_buf, tiles_buf, segments_buf],
        ),
        Op::Dispatch(sh.backdrop, (TILES_PER_SIDE, 1, 1), seq![config_buf, tiles_buf]),
        Op::Dispatch(
            sh.fine,
            (TILES_PER_SIDE, TILES_PER_SIDE, 1),
            seq![config_buf, tiles_buf, segments_buf, ResourceProxy::Image(plan_image())],
        ),
    ]
}

fn scene_buffer(scene: &Scene, padded: usize) -> (bytes: Vec<u8>)
    requires
        padded as int == padded_tags_len(scene.path_tags@.len() as int),
        scene_fits(scene.path_tags@, scene.path_data@),
    ensures
        bytes@ == scene_bytes(scene.path_tags@, scene.path_data@),
{
    let tags = &scene.path_tags;
    let data = &scene.path_data;
    let ghost t = tags@;
    let ghost d = data@;
    let mut bytes: Vec<u8> = Vec::new();
    let mut i: usize = 0;
    while i < tags.len()
        invariant
            i <= t.len(),
            t == tags@,
            bytes@ == t.subrange(0, i as int),
        decreases t.len() - i,
    {
        bytes.push(tags[i]);
        i = i + 1;
        assert(bytes@ =~= t.subrange(0, i as int));
    }
    assert(t.subrange(0, i as int) =~= t);
    assert(padded >= t.len()) by {
        assert(t.len() % 1024 < 1024);
    }
    while bytes.len() < padded
        invariant
            t.len() <= bytes@.len() <= padded,
            bytes@ == t + Seq::new((bytes@.len() - t.len()) as nat, |k: int| 0u8),
        decreases padded - bytes@.len(),
    {
        bytes.push(0u8);
        assert(bytes@ =~= t + Seq::new((bytes@.len() - t.len()) as nat, |k: int| 0u8));
    }
    let ghost head = bytes@;
    let mut j: usize = 0;
    while j < data.len()
        invariant
            j <= d.len(),
            d == data@,
            bytes@ == head + d.subrange(0, j as int),
        decreases d.len() - j,
    {
        bytes.push(data[j]);
        j = j + 1;
        assert(bytes@ =~= head + d.subrange(0, j as int));
    }
    assert(d.subrange(0, j as int) =~= d);
    bytes
}

/// Records the render of `scene`: its upload and configuration, then the
/// reduce, scan, path coarse, backdrop and fine stages, always all of them.
/// The result is the recording and the image it renders into.
pub fn render(scene: &Scene, shaders: &Shaders) -> (r: Result<(Recording, ImageProxy), PlanError>)
    ensures
        r is Err <==> !scene_fits(scene.path_tags@, scene.path_data@),
        r matches Err(e) ==> e == PlanError::SceneTooLarge,
        r matches Ok((rec, img)) ==> {
            &&& rec.wf()
            &&& rec.next_id == 7
            &&& rec.ops() == plan_ops(scene.path_tags@, scene.path_data@, *shaders)
            &&& rec.label_views() == plan_labels()
            &&& img == plan_image()
        },
{
    let n = scene.path_tags.len();
    let m = scene.path_data.len();
    if n > (u32::MAX - (TAG_ALIGNMENT - 1)) as usize {
        assert(padded_tags_len(n as int) >= n);
        return Err(PlanError::SceneTooLarge);
    }
    let padded = align_up(n, TAG_ALIGNMENT);
    if m > u32::MAX as usize - padded {
        return Err(PlanError::SceneTooLarge);
    }
    let wgs = padded / (TAG_ALIGNMENT as usize);
    let bytes = scene_buffer(scene, padded);
    let config = Config {
        width_in_tiles: TILES_PER_SIDE,
        height_in_tiles: TILES_PER_SIDE,
        target_width: TILES_PER_SIDE * TILE_PIXELS,
        target_height: TILES_PER_SIDE * TILE_PIXELS,
        n_drawobj: 0,
        n_path: 0,
        n_clip: 0,
        bin_data_start: 0,
        pathtag_base: size_to_words(0),
        pathdata_base: size_to_words(padded),
        drawtag_base: 0,
        drawdata_base: 0,
        transform_base: 0,
        linewidth_base: 0,
    };
    let config_bytes = words_to_bytes(&config.to_words());
    let mut recording = Recording::new();
    let scene_buf = recording.upload("scene", bytes);
    let config_buf = recording.upload_uniform("config", config_bytes);
    let reduced_buf = recording.create_buffer("reduced_buf", wgs as u64 * TAG_MONOID_SIZE);
    recording.dispatch(
        shaders.pathtag_reduce,
        (wgs as u32, 1, 1),
        vec![
            ResourceProxy::Buf(config_buf),
            ResourceProxy::Buf(scene_buf),
            ResourceProxy::Buf(reduced_buf),
        ],
    );
    let tagmonoid_buf = recording.create_buffer(
        "tagmonoid_buf",
        wgs as u64 * PATHTAG_REDUCE_WG as u64 * TAG_MONOID_SIZE,
    );
    recording.dispatch(
        shaders.pathtag_scan,
        (wgs as u32, 1, 1),
        vec![
            ResourceProxy::Buf(config_buf),
            ResourceProxy::Buf(scene_buf),
            ResourceProxy::Buf(reduced_buf),
            ResourceProxy::Buf(tagmonoid_buf),
        ],
    );
    let path_coarse_wgs = ((n as u64 + (PATH_COARSE_WG - 1) as u64) / PATH_COARSE_WG as u64) as u32;
    let tiles_buf = recording.create_buffer("tiles_buf", N_TILES * TILE_SIZE);
    let segments_buf = recording.create_buffer("segments_buf", N_SEGMENTS * SEGMENT_SIZE);
    recording.clear_all(tiles_buf);
    recording.dispatch(
        shaders.path_coarse,
        (path_coarse_wgs, 1, 1),
        vec![
            ResourceProxy::Buf(config_buf),
            ResourceProxy::Buf(scene_buf),
            ResourceProxy::Buf(tagmonoid_buf),
            ResourceProxy::Buf(tiles_buf),
            ResourceProxy::Buf(segments_buf),
        ],
    );
    recording.dispatch(
        shaders.backdrop,
        (config.height_in_tiles, 1, 1),
        vec![ResourceProxy::Buf(config_buf), ResourceProxy::Buf(tiles_buf)],
    );
    let out_image = recording.create_image(
        "out_image",
        config.target_width,
        config.target_height,
        ImageFormat::Rgba8,
    );
    recording.dispatch(
        shaders.fine,
        (config.width_in_tiles, config.height_in_tiles, 1),
        vec![
            ResourceProxy::Buf(config_buf),
            ResourceProxy::Buf(tiles_buf),
            ResourceProxy::Buf(segments_buf),
            ResourceProxy::Image(out_image),
        ],
    );
    assert(config == plan_config(n as int));
    assert(recording.ops() =~= plan_ops(scene.path_tags@, scene.path_data@, *shaders));
    assert(recording.label_views() =~= plan_labels());
    Ok((recording, out_image))
}

/// Planning is deterministic: renders of equal scenes, each into a fresh
/// recording, record the same operations over the same proxy ids, with the
/// same bytes, and render into the same image; the proxies' labels are
/// `plan_labels()` for every scene.
pub proof fn lemma_render_deterministic(
    tags_a: Seq<u8>,
    data_a: Seq<u8>,
    tags_b: Seq<u8>,
    data_b: Seq<u8>,
    shaders: Shaders,
)
    requires
        tags_a == tags_b,
        data_a == data_b,
    ensures
        plan_ops(tags_a, data_a, shaders) == plan_ops(tags_b, data_b, shaders),
        scene_bytes(tags_a, data_a) == scene_bytes(tags_b, data_b),
{
}

} // verus!
