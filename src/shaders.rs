//! The registry of compute stages and the binding layout each one declares.
use vstd::prelude::*;

verus! {

pub const PATHTAG_REDUCE_WG: u32 = 256;

pub const PATH_BBOX_WG: u32 = 256;

pub const PATH_COARSE_WG: u32 = 256;

pub const PATH_DRAWOBJ_WG: u32 = 256;

pub const CLIP_REDUCE_WG: u32 = 256;

/// Pixel format of an image resource.
#[derive(Clone, Copy, Debug, PartialEq, Eq, Structural)]
pub enum ImageFormat {
    Rgba8,
    Bgra8,
}

/// What a shader expects at one binding slot.
#[derive(Clone, Copy, Debug, PartialEq, Eq, Structural)]
pub enum BindType {
    /// Small read-only configuration block.
    Uniform,
    /// Storage buffer that the shader only reads.
    BufReadOnly,
    /// Storage buffer that the shader reads and writes.
    Buffer,
    /// Storage image of the given format.
    Image(ImageFormat),
}

/// Handle of a registered compute stage: its index in the registry.
#[derive(Clone, Copy, Debug, PartialEq, Eq, Structural)]
pub struct ShaderId(pub usize);

/// A registered compute stage.
pub struct ShaderInfo {
    pub name: String,
    pub layout: Vec<BindType>,
}

/// Named compute stages with their declared binding layouts, in the order
/// they were added.
pub struct ShaderRegistry {
    pub shaders: Vec<ShaderInfo>,
}

impl ShaderRegistry {
    /// The declared layout of every registered stage, by `ShaderId`.
    pub open spec fn layouts(&self) -> Seq<Seq<BindType>> {
        Seq::new(self.shaders@.len(), |i: int| self.shaders@[i].layout@)
    }

    pub fn new() -> (r: ShaderRegistry)
        ensures
            r.layouts().len() == 0,
    {
        ShaderRegistry { shaders: Vec::new() }
    }

    pub fn len(&self) -> (r: usize)
        ensures
            r == self.layouts().len(),
    {
        self.shaders.len()
    }

    /// Registers a stage; its id is the next free index.
    pub fn add_shader(&mut self, name: &str, layout: &[BindType]) -> (id: ShaderId)
        ensures
            id.0 == old(self).layouts().len(),
            final(self).layouts() == old(self).layouts().push(layout@),
    {
        let id = ShaderId(self.shaders.len());
        let mut layout_vec: Vec<BindType> = Vec::new();
        let mut i: usize = 0;
        while i < layout.len()
            invariant
                i <= layout@.len(),
                layout_vec@ == layout@.subrange(0, i as int),
            decreases layout@.len() - i,
        {
            layout_vec.push(layout[i]);
            i = i + 1;
            assert(layout_vec@ =~= layout@.subrange(0, i as int));
        }
        assert(layout_vec@ =~= layout@);
        self.shaders.push(ShaderInfo { name: name.to_owned(), layout: layout_vec });
        assert(final(self).layouts() =~= old(self).layouts().push(layout@));
        id
    }

    /// The declared layout of `id`, if it is registered.
    pub fn layout(&self, id: ShaderId) -> (r: Option<&Vec<BindType>>)
        ensures
            id.0 < self.layouts().len() ==> (r matches Some(l) && l@ == self.layouts()[id.0 as int]),
            id.0 >= self.layouts().len() ==> r is None,
    {
        if id.0 < self.shaders.len() {
            Some(&self.shaders[id.0].layout)
        } else {
            None
        }
    }
}

/// The stages of the rasterization pipeline.
#[derive(Clone, Copy, Debug, PartialEq, Eq, Structural)]
pub struct Shaders {
    pub pathtag_reduce: ShaderId,
    pub pathtag_scan: ShaderId,
    pub path_coarse: ShaderId,
    pub backdrop: ShaderId,
    pub fine: ShaderId,
}

pub open spec fn pathtag_reduce_layout() -> Seq<BindType> {
    seq![BindType::Uniform, BindType::BufReadOnly, BindType::Buffer]
}

pub open spec fn pathtag_scan_layout() -> Seq<BindType> {
    seq![BindType::Uniform, BindType::BufReadOnly, BindType::BufReadOnly, BindType::Buffer]
}

pub open spec fn path_coarse_layout() -> Seq<BindType> {
    seq![
        BindType::Uniform,
        BindType::BufReadOnly,
        BindType::BufReadOnly,
        BindType::Buffer,
        BindType::Buffer,
    ]
}

pub open spec fn backdrop_layout() -> Seq<BindType> {
    seq![BindType::Uniform, BindType::Buffer]
}

pub open spec fn fine_layout() -> Seq<BindType> {
    seq![
        BindType::Uniform,
        BindType::BufReadOnly,
        BindType::BufReadOnly,
        BindType::Image(ImageFormat::Rgba8),
    ]
}

impl Shaders {
    /// Every stage is registered in `layouts` with the layout the planner binds against.
    pub open spec fn registered_in(&self, layouts: Seq<Seq<BindType>>) -> bool {
        &&& self.pathtag_reduce.0 < layouts.len()
        &&& layouts[self.pathtag_reduce.0 as int] == pathtag_reduce_layout()
        &&& self.pathtag_scan.0 < layouts.len()
        &&& layouts[self.pathtag_scan.0 as int] == pathtag_scan_layout()
        &&& self.path_coarse.0 < layouts.len()
        &&& layouts[self.path_coarse.0 as int] == path_coarse_layout()
        &&& self.backdrop.0 < layouts.len()
        &&& layouts[self.backdrop.0 as int] == backdrop_layout()
        &&& self.fine.0 < layouts.len()
        &&& layouts[self.fine.0 as int] == fine_layout()
    }
}

/// Registers the five pipeline stages with their binding layouts.
pub fn init_shaders(registry: &mut ShaderRegistry) -> (s: Shaders)
    ensures
        final(registry).layouts() == old(registry).layouts() + seq![
            pathtag_reduce_layout(),
            pathtag_scan_layout(),
            path_coarse_layout(),
            backdrop_layout(),
            fine_layout(),
        ],
        s.pathtag_reduce.0 == old(registry).layouts().len(),
        s.pathtag_scan.0 == old(registry).layouts().len() + 1,
        s.path_coarse.0 == old(registry).layouts().len() + 2,
        s.backdrop.0 == old(registry).layouts().len() + 3,
        s.fine.0 == old(registry).layouts().len() + 4,
        s.registered_in(final(registry).layouts()),
{
    let pathtag_reduce = registry.add_shader(
        "pathtag_reduce",
        &[BindType::Uniform, BindType::BufReadOnly, BindType::Buffer],
    );
    let pathtag_scan = registry.add_shader(
        "pathtag_scan",
        &[BindType::Uniform, BindType::BufReadOnly, BindType::BufReadOnly, BindType::Buffer],
    );
    let path_coarse = registry.add_shader(
        "path_coarse",
        &[
            BindType::Uniform,
            BindType::BufReadOnly,
            BindType::BufReadOnly,
            BindType::Buffer,
            BindType::Buffer,
        ],
    );
    let backdrop = registry.add_shader("backdrop", &[BindType::Uniform, BindType::Buffer]);
    let fine = registry.add_shader(
        "fine",
        &[
            BindType::Uniform,
            BindType::BufReadOnly,
            BindType::BufReadOnly,
            BindType::Image(ImageFormat::Rgba8),
        ],
    );
    let s = Shaders { pathtag_reduce, pathtag_scan, path_coarse, backdrop, fine };
    assert(registry.layouts() =~= old(registry).layouts() + seq![
        pathtag_reduce_layout(),
        pathtag_scan_layout(),
        path_coarse_layout(),
        backdrop_layout(),
        fine_layout(),
    ]);
    s
}

} // verus!
