//! The render graph: galleries of paintings whose content is produced from
//! an image, a scene or another painting, with a single generation counter
//! per gallery that tells a render cache when its entries are stale.
//!
//! A `Painting` is a reference-counted handle. When its last handle goes,
//! its id is sent on the owning gallery's release channel; the gallery drops
//! the content on its next `gc`.
use std::collections::HashMap;
use std::sync::mpsc::{Receiver, Sender};
use std::sync::Arc;

use vstd::prelude::*;

use crate::render::Scene;

verus! {

broadcast use vstd::std_specs::hash::group_hash_axioms;

#[verifier::external_type_specification]
#[verifier::external_body]
#[verifier::reject_recursive_types(T)]
pub struct ExSender<T>(Sender<T>);

#[verifier::external_type_specification]
#[verifier::external_body]
#[verifier::reject_recursive_types(T)]
pub struct ExReceiver<T>(Receiver<T>);

#[verifier::external_type_specification]
#[verifier::external_body]
pub struct ExImage(peniko::Image);

#[verifier::external_type_specification]
#[verifier::external_body]
#[verifier::reject_recursive_types(T)]
pub struct ExBlob<T>(peniko::Blob<T>);

#[verifier::external_type_specification]
#[verifier::external_body]
pub struct ExBrush(peniko::Brush);

/// Relies on `peniko::Blob::new`: a blob holding no bytes.
#[verifier::external_body]
fn empty_blob() -> peniko::Blob<u8> {
    peniko::Blob::new(Arc::new([0u8; 0]))
}

/// Relies on `peniko::Blob::id` of the image's data: the id that draws of
/// this image carry.
#[verifier::external_body]
fn image_data_id(image: &peniko::Image) -> u64 {
    image.data.id()
}

/// Relies on `peniko::Image::new`: an RGBA8 image of the given size.
#[verifier::external_body]
fn rgba8_image(data: peniko::Blob<u8>, width: u32, height: u32) -> peniko::Image {
    peniko::Image::new(data, peniko::ImageFormat::Rgba8, width, height)
}

/// Relies on `peniko::Image::with_x_extend`.
#[verifier::external_body]
fn image_with_x_extend(image: peniko::Image, mode: Extend) -> peniko::Image {
    image.with_x_extend(
        match mode {
            Extend::Pad => peniko::Extend::Pad,
            Extend::Repeat => peniko::Extend::Repeat,
            Extend::Reflect => peniko::Extend::Reflect,
        },
    )
}

/// Relies on `peniko::Image::with_y_extend`.
#[verifier::external_body]
fn image_with_y_extend(image: peniko::Image, mode: Extend) -> peniko::Image {
    image.with_y_extend(
        match mode {
            Extend::Pad => peniko::Extend::Pad,
            Extend::Repeat => peniko::Extend::Repeat,
            Extend::Reflect => peniko::Extend::Reflect,
        },
    )
}

/// Relies on `peniko::Image::with_quality`.
#[verifier::external_body]
fn image_with_quality(image: peniko::Image, quality: ImageQuality) -> peniko::Image {
    image.with_quality(
        match quality {
            ImageQuality::Low => peniko::ImageQuality::Low,
            ImageQuality::Medium => peniko::ImageQuality::Medium,
            ImageQuality::High => peniko::ImageQuality::High,
        },
    )
}

/// Relies on `peniko::Brush::Image`: a brush that paints the image.
#[verifier::external_body]
fn image_brush(image: peniko::Image) -> peniko::Brush {
    peniko::Brush::Image(image)
}

/// Relies on `std::sync::mpsc::channel`: a connected sender and receiver.
#[verifier::external_body]
fn release_channel() -> (Sender<u64>, Receiver<u64>) {
    std::sync::mpsc::channel()
}

/// Relies on `Sender::clone`: another sender into the same channel.
#[verifier::external_body]
fn clone_sender(tx: &Sender<u64>) -> Sender<u64> {
    tx.clone()
}

/// Relies on `Sender::send`, which never blocks; a send to a channel whose
/// receiver is gone fails, and that failure is ignored.
#[verifier::external_body]
fn send_release(tx: &Sender<u64>, id: u64)
    opens_invariants none
    no_unwind
{
    let _ = tx.send(id);
}

/// Relies on `Receiver::try_iter`: every id waiting in the channel, without
/// blocking. What is waiting depends on other handles and threads.
#[verifier::external_body]
fn drain_released(rx: &Receiver<u64>) -> Vec<u64> {
    rx.try_iter().collect()
}

/// The decimal digit of `d`.
pub open spec fn digit_char(d: nat) -> char {
    if d == 0 { '0' }
    else if d == 1 { '1' }
    else if d == 2 { '2' }
    else if d == 3 { '3' }
    else if d == 4 { '4' }
    else if d == 5 { '5' }
    else if d == 6 { '6' }
    else if d == 7 { '7' }
    else if d == 8 { '8' }
    else { '9' }
}

/// `n` in decimal, without leading zeros.
pub open spec fn decimal(n: nat) -> Seq<char>
    decreases n,
{
    if n < 10 {
        seq![digit_char(n)]
    } else {
        decimal(n / 10).push(digit_char(n % 10))
    }
}

/// The label of an anonymous gallery: the prefix, a dash, then the id in
/// decimal with at least two digits.
pub open spec fn anonymous_label_spec(prefix: Seq<char>, id: nat) -> Seq<char> {
    if id < 10 {
        prefix + seq!['-', '0', digit_char(id)]
    } else {
        prefix + seq!['-'] + decimal(id)
    }
}

fn digit_str(d: u64) -> (r: &'static str)
    requires
        d < 10,
    ensures
        r@ == seq![digit_char(d as nat)],
{
    proof {
        reveal_strlit("0");
        reveal_strlit("1");
        reveal_strlit("2");
        reveal_strlit("3");
        reveal_strlit("4");
        reveal_strlit("5");
        reveal_strlit("6");
        reveal_strlit("7");
        reveal_strlit("8");
        reveal_strlit("9");
    }
    if d == 0 {
        "0"
    } else if d == 1 {
        "1"
    } else if d == 2 {
        "2"
    } else if d == 3 {
        "3"
    } else if d == 4 {
        "4"
    } else if d == 5 {
        "5"
    } else if d == 6 {
        "6"
    } else if d == 7 {
        "7"
    } else if d == 8 {
        "8"
    } else {
        "9"
    }
}

fn append_decimal(s: &mut String, n: u64)
    ensures
        final(s)@ == old(s)@ + decimal(n as nat),
    decreases n,
{
    if n >= 10 {
        append_decimal(s, n / 10);
    }
    s.append(digit_str(n % 10));
    assert(final(s)@ =~= old(s)@ + decimal(n as nat));
}

fn anonymous_label(prefix: &str, id: u64) -> (r: String)
    ensures
        r@ == anonymous_label_spec(prefix@, id as nat),
{
    let mut label = String::from_str(prefix);
    proof {
        reveal_strlit("-");
        reveal_strlit("-0");
    }
    if id < 10 {
        label.append("-0");
    } else {
        label.append("-");
    }
    append_decimal(&mut label, id);
    assert(label@ =~= anonymous_label_spec(prefix@, id as nat));
    label
}

/// The generation after `g`: one more, wrapping at 2^32.
pub open spec fn next_generation(g: u32) -> u32 {
    if g == u32::MAX {
        0
    } else {
        (g + 1) as u32
    }
}

/// A wrapping counter bumped on every change of content.
#[derive(Clone, Debug, PartialEq, Eq, Structural)]
pub struct Generation(pub u32);

impl Generation {
    pub fn nudge(&mut self)
        ensures
            final(self).0 == next_generation(old(self).0),
    {
        self.0 = self.0.wrapping_add(1);
    }
}

impl Default for Generation {
    fn default() -> (r: Generation)
        ensures
            r.0 == 0,
    {
        Generation(0)
    }
}

/// Source of gallery and painting ids. Ids are handed out in increasing
/// order and never twice, so one source per process keeps them unique.
#[derive(Debug)]
pub struct IdSource {
    next_gallery: u64,
    next_painting: u64,
}

impl IdSource {
    /// Gallery ids start at one.
    #[verifier::type_invariant]
    closed spec fn inv(&self) -> bool {
        self.next_gallery >= 1
    }

    /// The id the next gallery gets.
    pub closed spec fn next_gallery_id(&self) -> u64 {
        self.next_gallery
    }

    /// The id the next painting gets.
    pub closed spec fn next_painting_id(&self) -> u64 {
        self.next_painting
    }

    pub fn new() -> (r: IdSource)
        ensures
            r.next_gallery_id() == 1,
            r.next_painting_id() == 0,
    {
        IdSource { next_gallery: 1, next_painting: 0 }
    }
}

/// The id of a gallery.
#[derive(Clone, Copy, Debug, PartialEq, Eq, Hash, Structural)]
pub struct GalleryId(pub u64);

impl GalleryId {
    pub fn next(ids: &mut IdSource) -> (r: GalleryId)
        requires
            old(ids).next_gallery_id() < u64::MAX,
        ensures
            r.0 == old(ids).next_gallery_id(),
            r.0 >= 1,
            final(ids).next_gallery_id() == old(ids).next_gallery_id() + 1,
            final(ids).next_painting_id() == old(ids).next_painting_id(),
    {
        proof {
            use_type_invariant(&*ids);
        }
        let id = ids.next_gallery;
        ids.next_gallery = id + 1;
        GalleryId(id)
    }
}

/// The id of a painting.
#[derive(Clone, Copy, Debug, PartialEq, Eq, Hash, Structural)]
pub struct PaintingId(pub u64);

impl PaintingId {
    pub fn next(ids: &mut IdSource) -> (r: PaintingId)
        requires
            old(ids).next_painting_id() < u64::MAX,
        ensures
            r.0 == old(ids).next_painting_id(),
            final(ids).next_painting_id() == old(ids).next_painting_id() + 1,
            final(ids).next_gallery_id() == old(ids).next_gallery_id(),
    {
        proof {
            use_type_invariant(&*ids);
        }
        let id = ids.next_painting;
        ids.next_painting = id + 1;
        PaintingId(id)
    }
}

/// Size of a rendered painting in pixels.
#[derive(Clone, Copy, Debug, PartialEq, Eq, Structural)]
pub struct OutputSize {
    pub width: u32,
    pub height: u32,
}

/// How an image is extended past its edges.
#[derive(Clone, Copy, Debug, PartialEq, Eq, Structural)]
pub enum Extend {
    Pad,
    Repeat,
    Reflect,
}

/// Hint for the quality of image sampling.
#[derive(Clone, Copy, Debug, PartialEq, Eq, Structural)]
pub enum ImageQuality {
    Low,
    Medium,
    High,
}

/// A description of a new painting, used in `Gallery::create_painting`.
#[derive(Clone, Debug)]
pub struct PaintingDescriptor {
    pub label: String,
    /// Texture usage bits the painting's texture is created with.
    pub usages: u32,
    /// Extend mode in the horizontal direction.
    pub x_extend: Extend,
    /// Extend mode in the vertical direction.
    pub y_extend: Extend,
}

/// The shared part of a `Painting`. Its identity is its allocation; the
/// content belongs to the gallery.
#[derive(Debug)]
struct PaintingInner {
    id: PaintingId,
    deallocator: Sender<u64>,
    label: String,
    gallery_id: GalleryId,
    usages: u32,
    x_extend: Extend,
    y_extend: Extend,
}

impl Drop for PaintingInner {
    fn drop(&mut self)
        opens_invariants none
        no_unwind
    {
        send_release(&self.deallocator, self.id.0);
    }
}

/// A reference-counted handle to an image managed by a gallery.
#[derive(Clone, Debug)]
pub struct Painting {
    inner: Arc<PaintingInner>,
}

impl Painting {
    pub closed spec fn id(&self) -> u64 {
        self.inner.id.0
    }

    /// The id of the gallery that created this painting.
    pub closed spec fn gallery(&self) -> u64 {
        self.inner.gallery_id.0
    }

    pub fn painting_id(&self) -> (r: PaintingId)
        ensures
            r.0 == self.id(),
    {
        self.inner.id
    }

    pub fn gallery_id(&self) -> (r: GalleryId)
        ensures
            r.0 == self.gallery(),
    {
        self.inner.gallery_id
    }

    /// Texture usage bits, as given at creation.
    pub closed spec fn usage_bits(&self) -> u32 {
        self.inner.usages
    }

    /// Extend modes in the horizontal and vertical direction, as given at creation.
    pub closed spec fn extend_modes(&self) -> (Extend, Extend) {
        (self.inner.x_extend, self.inner.y_extend)
    }

    /// The label given at creation.
    pub closed spec fn label_view(&self) -> Seq<char> {
        self.inner.label@
    }

    pub fn label(&self) -> (r: &str)
        ensures
            r@ == self.label_view(),
    {
        self.inner.label.as_str()
    }

    pub fn usages(&self) -> (r: u32)
        ensures
            r == self.usage_bits(),
    {
        self.inner.usages
    }

    pub fn x_extend(&self) -> (r: Extend)
        ensures
            r == self.extend_modes().0,
    {
        self.inner.x_extend
    }

    pub fn y_extend(&self) -> (r: Extend)
        ensures
            r == self.extend_modes().1,
    {
        self.inner.y_extend
    }
}

/// How the content of a painting is produced.
#[derive(Debug)]
pub enum PaintingSource {
    Image(peniko::Image),
    Canvas(Canvas, OutputSize),
    Blur(Painting),
}

/// A scene, with the paintings that its image draws stand for, keyed by the
/// id of the image data they replace.
#[derive(Debug)]
pub struct Canvas {
    pub scene: Scene,
    pub paintings: HashMap<u64, Painting>,
}

/// A partial render graph. There is expected to be one gallery per thread.
#[derive(Debug)]
pub struct Gallery {
    id: GalleryId,
    label: String,
    generation: Generation,
    incoming_deallocations: Receiver<u64>,
    deallocator: Sender<u64>,
    paintings: HashMap<u64, (PaintingSource, Generation)>,
}

impl Gallery {
    pub closed spec fn id(&self) -> u64 {
        self.id.0
    }

    pub closed spec fn generation(&self) -> u32 {
        self.generation.0
    }

    /// The content of each live painting, with its own generation.
    pub closed spec fn paintings(&self) -> Map<u64, (PaintingSource, Generation)> {
        self.paintings@
    }

    fn new_inner(id: GalleryId, label: String) -> (r: Gallery)
        ensures
            r.id() == id.0,
            r.label_view() == label@,
            r.generation() == 0,
            r.paintings() == Map::<u64, (PaintingSource, Generation)>::empty(),
    {
        let (tx, rx) = release_channel();
        Gallery {
            id,
            label,
            generation: Generation::default(),
            paintings: HashMap::new(),
            deallocator: tx,
            incoming_deallocations: rx,
        }
    }

    pub fn new(label: &str, ids: &mut IdSource) -> (r: Gallery)
        requires
            old(ids).next_gallery_id() < u64::MAX,
        ensures
            r.id() == old(ids).next_gallery_id(),
            r.id() >= 1,
            r.label_view() == label@,
            r.generation() == 0,
            r.paintings() == Map::<u64, (PaintingSource, Generation)>::empty(),
            final(ids).next_gallery_id() == old(ids).next_gallery_id() + 1,
            final(ids).next_painting_id() == old(ids).next_painting_id(),
    {
        let id = GalleryId::next(ids);
        Self::new_inner(id, label.to_owned())
    }

    /// A gallery labelled with `prefix` and its id.
    pub fn new_anonymous(prefix: &str, ids: &mut IdSource) -> (r: Gallery)
        requires
            old(ids).next_gallery_id() < u64::MAX,
        ensures
            r.id() == old(ids).next_gallery_id(),
            r.id() >= 1,
            r.label_view() == anonymous_label_spec(prefix@, r.id() as nat),
            r.generation() == 0,
            r.paintings() == Map::<u64, (PaintingSource, Generation)>::empty(),
            final(ids).next_gallery_id() == old(ids).next_gallery_id() + 1,
            final(ids).next_painting_id() == old(ids).next_painting_id(),
    {
        let id = GalleryId::next(ids);
        let label = anonymous_label(prefix, id.0);
        Self::new_inner(id, label)
    }

    pub fn gallery_id(&self) -> (r: GalleryId)
        ensures
            r.0 == self.id(),
    {
        self.id
    }

    pub fn current_generation(&self) -> (r: Generation)
        ensures
            r.0 == self.generation(),
    {
        Generation(self.generation.0)
    }

    /// The gallery's label.
    pub closed spec fn label_view(&self) -> Seq<char> {
        self.label@
    }

    pub fn label(&self) -> (r: &str)
        ensures
            r@ == self.label_view(),
    {
        self.label.as_str()
    }

    /// Every painting with content has an id below `bound`; with `bound` the
    /// next id of the source the gallery's paintings come from, a new
    /// painting has no content yet.
    pub open spec fn keys_below(&self, bound: u64) -> bool {
        forall|k: u64| #[trigger] self.paintings().contains_key(k) ==> k < bound
    }

    /// Whether the painting with id `id` has content in this gallery.
    pub fn contains(&self, id: PaintingId) -> (r: bool)
        ensures
            r == self.paintings().contains_key(id.0),
    {
        self.paintings.contains_key(&id.0)
    }

    /// The generation of the painting's own content, if it has any.
    pub fn painting_generation(&self, id: PaintingId) -> (r: Option<Generation>)
        ensures
            r == (if self.paintings().contains_key(id.0) {
                Some(self.paintings()[id.0].1)
            } else {
                None::<Generation>
            }),
    {
        match self.paintings.get(&id.0) {
            Some(entry) => Some(Generation(entry.1.0)),
            None => None,
        }
    }

    /// How the content of `id` is produced, if it has content.
    pub fn source(&self, id: PaintingId) -> (r: Option<&PaintingSource>)
        ensures
            r is Some <==> self.paintings().contains_key(id.0),
            r matches Some(s) ==> *s == self.paintings()[id.0].0,
    {
        match self.paintings.get(&id.0) {
            Some(entry) => Some(&entry.0),
            None => None,
        }
    }

    /// The painting that `id` blurs, which must be rendered first.
    pub fn blur_source(&self, id: PaintingId) -> (r: Option<PaintingId>)
        ensures
            r == (if self.paintings().contains_key(id.0) {
                match self.paintings()[id.0].0 {
                    PaintingSource::Blur(p) => Some(PaintingId(p.id())),
                    _ => None::<PaintingId>,
                }
            } else {
                None::<PaintingId>
            }),
    {
        match self.source(id) {
            Some(PaintingSource::Blur(p)) => Some(p.painting_id()),
            _ => None,
        }
    }

    /// Drops the content of every painting in `released`. The generation
    /// moves on once if `released` is not empty, whether or not any of them
    /// had content.
    pub fn release_paintings(&mut self, released: &Vec<u64>)
        ensures
            final(self).id() == old(self).id(),
            forall|k: u64| #[trigger]
                final(self).paintings().contains_key(k) <==> (old(self).paintings().contains_key(
                    k,
                ) && !released@.contains(k)),
            forall|k: u64| #[trigger]
                final(self).paintings().contains_key(k) ==> final(self).paintings()[k]
                    == old(self).paintings()[k],
            final(self).generation() == if released@.len() > 0 {
                next_generation(old(self).generation())
            } else {
                old(self).generation()
            },
    {
        let mut i: usize = 0;
        while i < released.len()
            invariant
                i <= released@.len(),
                self.id == old(self).id,
                self.generation == old(self).generation,
                forall|k: u64| #[trigger]
                    self.paintings@.contains_key(k) <==> (old(self).paintings@.contains_key(k)
                        && !released@.subrange(0, i as int).contains(k)),
                forall|k: u64| #[trigger]
                    self.paintings@.contains_key(k) ==> self.paintings@[k]
                        == old(self).paintings@[k],
            decreases released@.len() - i,
        {
            let id = released[i];
            let _ = self.paintings.remove(&id);
            proof {
                assert forall|k: u64| #[trigger]
                    released@.subrange(0, i + 1).contains(k) <==> (released@.subrange(
                        0,
                        i as int,
                    ).contains(k) || k == id) by {
                    if k == id {
                        assert(released@.subrange(0, i + 1)[i as int] == k);
                    }
                    if released@.subrange(0, i as int).contains(k) {
                        let j = choose|j: int|
                            0 <= j < i && #[trigger] released@.subrange(0, i as int)[j] == k;
                        assert(released@.subrange(0, i + 1)[j] == k);
                    }
                    if released@.subrange(0, i + 1).contains(k) {
                        let j = choose|j: int|
                            0 <= j < i + 1 && #[trigger] released@.subrange(0, i + 1)[j] == k;
                        if j < i {
                            assert(released@.subrange(0, i as int)[j] == k);
                        }
                    }
                }
            }
            i = i + 1;
        }
        assert(released@.subrange(0, i as int) =~= released@);
        if released.len() > 0 {
            self.generation.nudge();
        }
    }

    /// Drops the content of every painting whose last handle is gone.
    pub fn gc(&mut self)
        ensures
            final(self).id() == old(self).id(),
            forall|k: u64| #[trigger]
                final(self).paintings().contains_key(k) ==> old(self).paintings().contains_key(k)
                    && final(self).paintings()[k] == old(self).paintings()[k],
            final(self).generation() == old(self).generation() || final(self).generation()
                == next_generation(old(self).generation()),
            (exists|k: u64| #[trigger]
                old(self).paintings().contains_key(k) && !final(self).paintings().contains_key(k))
                ==> final(self).generation() == next_generation(old(self).generation()),
    {
        let released = drain_released(&self.incoming_deallocations);
        self.release_paintings(&released);
    }

    /// A new painting owned by this gallery; it has no content yet.
    pub fn create_painting(&mut self, desc: PaintingDescriptor, ids: &mut IdSource) -> (r: Painting)
        requires
            old(ids).next_painting_id() < u64::MAX,
        ensures
            *final(self) == *old(self),
            r.id() == old(ids).next_painting_id(),
            r.gallery() == old(self).id(),
            r.label_view() == desc.label@,
            old(self).keys_below(old(ids).next_painting_id()) ==> {
                &&& !final(self).paintings().contains_key(r.id())
                &&& final(self).keys_below(final(ids).next_painting_id())
            },
            r.usage_bits() == desc.usages,
            r.extend_modes() == (desc.x_extend, desc.y_extend),
            final(ids).next_painting_id() == old(ids).next_painting_id() + 1,
            final(ids).next_gallery_id() == old(ids).next_gallery_id(),
    {
        let PaintingDescriptor { label, usages, x_extend, y_extend } = desc;
        Painting {
            inner: Arc::new(
                PaintingInner {
                    label,
                    deallocator: clone_sender(&self.deallocator),
                    id: PaintingId::next(ids),
                    gallery_id: self.id,
                    usages,
                    x_extend,
                    y_extend,
                },
            ),
        }
    }

    /// Starts setting the content of `painting`. The generation moves on at
    /// once. A painting of another gallery is refused and nothing changes.
    pub fn paint<'a>(&'a mut self, painting: &Painting) -> (r: Option<Painter<'a>>)
        ensures
            painting.gallery() != old(self).id() ==> r is None && *final(self) == *old(self),
            painting.gallery() == old(self).id() ==> (r matches Some(p) && {
                &&& p.painting.0 == painting.id()
                &&& p.gallery.id() == old(self).id()
                &&& p.gallery.generation() == next_generation(old(self).generation())
                &&& p.gallery.paintings() == old(self).paintings()
                &&& *final(self) == *final(p.gallery)
            }),
    {
        if painting.inner.gallery_id.0 != self.id.0 {
            return None;
        }
        self.generation.nudge();
        Some(Painter { gallery: self, painting: painting.inner.id })
    }
}

/// Sets the content of one painting; each terminal method consumes it.
/// Obtained from `Gallery::paint`, which checks that the painting belongs to
/// the gallery.
#[derive(Debug)]
pub struct Painter<'a> {
    pub gallery: &'a mut Gallery,
    pub painting: PaintingId,
}

/// The gallery's paintings after `id` gets `source`: its own generation moves
/// on if it had content, and starts at zero if not.
pub open spec fn assigned(
    paintings: Map<u64, (PaintingSource, Generation)>,
    id: u64,
    source: PaintingSource,
) -> Map<u64, (PaintingSource, Generation)> {
    if paintings.contains_key(id) {
        paintings.insert(id, (source, Generation(next_generation(paintings[id].1.0))))
    } else {
        paintings.insert(id, (source, Generation(0)))
    }
}

impl Painter<'_> {
    pub fn as_image(self, image: peniko::Image)
        ensures
            final(self.gallery).id() == old(self.gallery).id(),
            final(self.gallery).generation() == old(self.gallery).generation(),
            forall|b: u64|
                old(self.gallery).keys_below(b) && self.painting.0 < b ==> final(self.gallery).keys_below(b),
            final(self.gallery).paintings() == assigned(
                old(self.gallery).paintings(),
                self.painting.0,
                PaintingSource::Image(image),
            ),
    {
        self.insert(PaintingSource::Image(image));
    }

    pub fn as_scene(self, scene: Canvas, of_dimensions: OutputSize)
        ensures
            final(self.gallery).id() == old(self.gallery).id(),
            final(self.gallery).generation() == old(self.gallery).generation(),
            forall|b: u64|
                old(self.gallery).keys_below(b) && self.painting.0 < b ==> final(self.gallery).keys_below(b),
            final(self.gallery).paintings() == assigned(
                old(self.gallery).paintings(),
                self.painting.0,
                PaintingSource::Canvas(scene, of_dimensions),
            ),
    {
        self.insert(PaintingSource::Canvas(scene, of_dimensions));
    }

    pub fn as_blur(self, from: Painting)
        ensures
            final(self.gallery).id() == old(self.gallery).id(),
            final(self.gallery).generation() == old(self.gallery).generation(),
            forall|b: u64|
                old(self.gallery).keys_below(b) && self.painting.0 < b ==> final(self.gallery).keys_below(b),
            final(self.gallery).paintings() == assigned(
                old(self.gallery).paintings(),
                self.painting.0,
                PaintingSource::Blur(from),
            ),
    {
        self.insert(PaintingSource::Blur(from));
    }

    fn insert(self, new_source: PaintingSource)
        ensures
            final(self.gallery).id() == old(self.gallery).id(),
            final(self.gallery).generation() == old(self.gallery).generation(),
            forall|b: u64|
                old(self.gallery).keys_below(b) && self.painting.0 < b ==> final(self.gallery).keys_below(b),
            final(self.gallery).paintings() == assigned(
                old(self.gallery).paintings(),
                self.painting.0,
                new_source,
            ),
    {
        let id = self.painting.0;
        let ghost src = new_source;
        match self.gallery.paintings.remove(&id) {
            Some(entry) => {
                let mut generation = entry.1;
                generation.nudge();
                self.gallery.paintings.insert(id, (new_source, generation));
            },
            None => {
                self.gallery.paintings.insert(id, (new_source, Generation::default()));
            },
        }
        assert(self.gallery.paintings@ =~= assigned(old(self.gallery).paintings@, id, src));
        assert forall|b: u64|
            old(self.gallery).keys_below(b) && id < b implies self.gallery.keys_below(b) by {
            assert forall|k: u64| #[trigger] self.gallery.paintings().contains_key(k) implies k < b by {
                if k != id {
                    assert(old(self.gallery).paintings().contains_key(k));
                }
            }
        }
    }
}

/// The textures of rendered paintings, each with the gallery generation it
/// was rendered at. An entry is only served while that generation is the
/// gallery's current one.
#[derive(Debug)]
pub struct RenderCache<T> {
    entries: HashMap<u64, (T, Generation)>,
}

impl<T> RenderCache<T> {
    /// Cached texture and generation, by painting id.
    pub closed spec fn entries(&self) -> Map<u64, (T, Generation)> {
        self.entries@
    }

    /// The entry of `id` was rendered at generation `current`.
    pub open spec fn is_fresh(&self, id: u64, current: u32) -> bool {
        self.entries().contains_key(id) && self.entries()[id].1.0 == current
    }

    pub fn new() -> (r: RenderCache<T>)
        ensures
            r.entries() == Map::<u64, (T, Generation)>::empty(),
    {
        RenderCache { entries: HashMap::new() }
    }

    /// The texture of `id`, unless it is missing or was rendered at another
    /// generation than `current`, in which case it must be rendered again.
    pub fn get_fresh(&self, id: PaintingId, current: &Generation) -> (r: Option<&T>)
        ensures
            r is Some <==> self.is_fresh(id.0, current.0),
            r matches Some(t) ==> *t == self.entries()[id.0].0,
    {
        match self.entries.get(&id.0) {
            Some(entry) => if entry.1.0 == current.0 {
                Some(&entry.0)
            } else {
                None
            },
            None => None,
        }
    }

    /// Records the texture of `id`, rendered at `generation`.
    pub fn store(&mut self, id: PaintingId, texture: T, generation: Generation)
        ensures
            final(self).entries() == old(self).entries().insert(id.0, (texture, generation)),
    {
        let _ = self.entries.insert(id.0, (texture, generation));
    }

    /// Forgets the texture of `id`.
    pub fn forget(&mut self, id: PaintingId)
        ensures
            final(self).entries() == old(self).entries().remove(id.0),
    {
        let _ = self.entries.remove(&id.0);
    }
}

/// Painting invalidates the cache: where a texture was cached at the
/// gallery's generation before a `paint` and its terminal call, the gallery's
/// generation afterwards is the next one, and that entry is no longer
/// served, so the next render of the painting renders it again.
pub proof fn lemma_paint_forces_rerender<T>(
    cache: RenderCache<T>,
    id: u64,
    before: Gallery,
    after: Gallery,
)
    requires
        cache.is_fresh(id, before.generation()),
        after.generation() == next_generation(before.generation()),
    ensures
        !cache.is_fresh(id, after.generation()),
{
}

/// Image settings of a painting drawn into a canvas.
#[derive(Debug)]
pub struct PaintingConfig {
    image: peniko::Image,
}

impl PaintingConfig {
    fn new(painting: &Painting, width: u16, height: u16) -> PaintingConfig {
        let data = empty_blob();
        let image = rgba8_image(data, width as u32, height as u32);
        let image = image_with_x_extend(image, painting.inner.x_extend);
        let image = image_with_y_extend(image, painting.inner.y_extend);
        PaintingConfig { image }
    }

    pub fn from_image(image: peniko::Image) -> PaintingConfig {
        PaintingConfig { image }
    }

    pub fn into_image(self) -> peniko::Image {
        self.image
    }

    pub fn brush(self) -> peniko::Brush {
        image_brush(self.image)
    }

    pub fn image(&self) -> &peniko::Image {
        &self.image
    }

    /// Sets a hint for the desired image quality when rendering.
    pub fn with_quality(self, quality: ImageQuality) -> PaintingConfig {
        PaintingConfig { image: image_with_quality(self.image, quality) }
    }
}

impl Default for Canvas {
    fn default() -> (r: Canvas)
        ensures
            r.scene.path_tags@.len() == 0,
            r.scene.path_data@.len() == 0,
            r.paintings@ == Map::<u64, Painting>::empty(),
    {
        Canvas::new()
    }
}

impl Canvas {
    pub fn new() -> (r: Canvas)
        ensures
            r.scene.path_tags@.len() == 0,
            r.scene.path_data@.len() == 0,
            r.paintings@ == Map::<u64, Painting>::empty(),
    {
        Canvas::from_scene(Scene { path_tags: Vec::new(), path_data: Vec::new() })
    }

    pub fn from_scene(scene: Scene) -> (r: Canvas)
        ensures
            r.scene == scene,
            r.paintings@ == Map::<u64, Painting>::empty(),
    {
        Canvas { scene, paintings: HashMap::new() }
    }

    /// Makes draws of `image` stand for `painting`.
    pub fn override_image(&mut self, image: &peniko::Image, painting: Painting)
        ensures
            final(self).scene == old(self).scene,
            exists|k: u64| final(self).paintings@ == old(self).paintings@.insert(k, painting),
    {
        let key = image_data_id(image);
        let _ = self.paintings.insert(key, painting);
    }

    /// Image settings for drawing `painting` at the given size; draws of
    /// that image stand for the painting.
    pub fn new_image(&mut self, painting: Painting, width: u16, height: u16) -> (r: PaintingConfig)
        ensures
            final(self).scene == old(self).scene,
            exists|k: u64| final(self).paintings@ == old(self).paintings@.insert(k, painting),
    {
        let config = PaintingConfig::new(&painting, width, height);
        self.override_image(&config.image, painting);
        config
    }
}

/// Design notes on image filter graphs. To build one we need the scene to
/// draw, the resolution of the filter's input image and the resolution of
/// its output. The scene may be a texture from an earlier step or provided
/// from outside, and the input resolution may depend on the output one
/// through scaling, rotation or skew.
#[derive(Debug)]
pub struct Thinking;

/// Design notes on threading: scenes can be created on several threads,
/// scenes from any thread can use filter effects, and each image on the CPU
/// is uploaded once.
#[derive(Debug)]
pub struct Threading;

/// Design notes on propagating render sizes backwards: what is gained is
/// image sampling quality, so scenes of automatic size may be rendered more
/// than once, in two phases starting from every scene of known size.
#[derive(Debug)]
pub struct ThinkingAgain;

/// Design notes on scheduling: custom graph nodes are not planned for now.
#[derive(Debug)]
pub struct Scheduling;

} // verus!
