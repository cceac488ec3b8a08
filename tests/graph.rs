use std::sync::Arc;

use vello::device::compatible_device;
use vello::graph::{
    Canvas, Extend, Gallery, Generation, IdSource, ImageQuality, OutputSize, Painting,
    PaintingDescriptor, PaintingId, RenderCache,
};
use vello::render::Scene;

fn descriptor(label: &str) -> PaintingDescriptor {
    PaintingDescriptor {
        label: label.to_string(),
        usages: 0,
        x_extend: Extend::Pad,
        y_extend: Extend::Repeat,
    }
}

fn image() -> peniko::Image {
    peniko::Image::new(
        peniko::Blob::new(Arc::new([0u8; 4])),
        peniko::ImageFormat::Rgba8,
        1,
        1,
    )
}

fn setup() -> (IdSource, Gallery, Painting) {
    let mut ids = IdSource::new();
    let mut gallery = Gallery::new("main", &mut ids);
    let painting = gallery.create_painting(descriptor("p"), &mut ids);
    (ids, gallery, painting)
}

#[test]
fn ids_increase_and_never_repeat() {
    let mut ids = IdSource::new();
    let a = Gallery::new("a", &mut ids);
    let mut b = Gallery::new_anonymous("anon", &mut ids);
    assert_eq!(a.gallery_id().0, 1);
    assert_eq!(b.gallery_id().0, 2);
    assert_eq!(b.label(), "anon-02");
    let p = b.create_painting(descriptor("x"), &mut ids);
    let q = b.create_painting(descriptor("y"), &mut ids);
    assert_eq!(p.painting_id(), PaintingId(0));
    assert_eq!(q.painting_id(), PaintingId(1));
    assert_eq!(p.gallery_id(), b.gallery_id());
    assert_eq!(p.label(), "x");
    assert_eq!(p.y_extend(), Extend::Repeat);
}

#[test]
fn paint_bumps_generations() {
    let (_ids, mut gallery, painting) = setup();
    assert_eq!(gallery.current_generation(), Generation(0));
    assert!(!gallery.contains(painting.painting_id()));
    gallery.paint(&painting).unwrap().as_image(image());
    assert_eq!(gallery.current_generation(), Generation(1));
    assert_eq!(gallery.painting_generation(painting.painting_id()), Some(Generation(0)));
    let canvas = Canvas::new();
    gallery
        .paint(&painting)
        .unwrap()
        .as_scene(canvas, OutputSize { width: 10, height: 20 });
    assert_eq!(gallery.current_generation(), Generation(2));
    assert_eq!(gallery.painting_generation(painting.painting_id()), Some(Generation(1)));
}

#[test]
fn painting_of_another_gallery_is_refused() {
    let mut ids = IdSource::new();
    let mut a = Gallery::new("a", &mut ids);
    let mut b = Gallery::new("b", &mut ids);
    let pa = a.create_painting(descriptor("pa"), &mut ids);
    let pb = b.create_painting(descriptor("pb"), &mut ids);
    b.paint(&pb).unwrap().as_image(image());
    let before = b.current_generation();
    assert!(b.paint(&pa).is_none());
    assert_eq!(b.current_generation(), before);
    assert!(!b.contains(pa.painting_id()));
    assert!(b.contains(pb.painting_id()));
    assert_eq!(a.current_generation(), Generation(0));
}

#[test]
fn repaint_invalidates_cached_texture() {
    let (mut ids, mut gallery, painting) = setup();
    let source = gallery.create_painting(descriptor("src"), &mut ids);
    gallery.paint(&source).unwrap().as_image(image());
    gallery.paint(&painting).unwrap().as_blur(source.clone());
    assert_eq!(gallery.blur_source(painting.painting_id()), Some(source.painting_id()));
    assert_eq!(gallery.blur_source(source.painting_id()), None);
    assert!(matches!(
        gallery.source(source.painting_id()),
        Some(vello::graph::PaintingSource::Image(_))
    ));
    let mut cache: RenderCache<&str> = RenderCache::new();
    let id = painting.painting_id();
    assert_eq!(cache.get_fresh(id, &gallery.current_generation()), None);
    cache.store(id, "texture-1", gallery.current_generation());
    assert_eq!(cache.get_fresh(id, &gallery.current_generation()), Some(&"texture-1"));
    gallery.paint(&painting).unwrap().as_image(image());
    assert_eq!(cache.get_fresh(id, &gallery.current_generation()), None);
    cache.store(id, "texture-2", gallery.current_generation());
    assert_eq!(cache.get_fresh(id, &gallery.current_generation()), Some(&"texture-2"));
    cache.forget(id);
    assert_eq!(cache.get_fresh(id, &gallery.current_generation()), None);
}

#[test]
fn gc_removes_released_paintings() {
    let (mut ids, mut gallery, painting) = setup();
    let other = gallery.create_painting(descriptor("other"), &mut ids);
    gallery.paint(&painting).unwrap().as_image(image());
    gallery.paint(&other).unwrap().as_image(image());
    let id = painting.painting_id();
    let generation = gallery.current_generation();

    gallery.gc();
    assert_eq!(gallery.current_generation(), generation);

    let handle = painting.clone();
    drop(painting);
    gallery.gc();
    assert!(gallery.contains(id));
    assert_eq!(gallery.current_generation(), generation);

    drop(handle);
    gallery.gc();
    assert!(!gallery.contains(id));
    assert!(gallery.contains(other.painting_id()));
    assert_eq!(gallery.current_generation(), Generation(generation.0 + 1));
}

#[test]
fn releasing_unknown_ids_still_moves_generation() {
    let (_ids, mut gallery, _painting) = setup();
    gallery.release_paintings(&vec![]);
    assert_eq!(gallery.current_generation(), Generation(0));
    gallery.release_paintings(&vec![77]);
    assert_eq!(gallery.current_generation(), Generation(1));
}

#[test]
fn generation_wraps() {
    let mut g = Generation(u32::MAX);
    g.nudge();
    assert_eq!(g, Generation(0));
    assert_eq!(Generation::default(), Generation(0));
}

#[test]
fn canvas_tracks_painting_images() {
    let (_ids, _gallery, painting) = setup();
    let mut canvas = Canvas::from_scene(Scene { path_tags: vec![1], path_data: vec![] });
    let config = canvas.new_image(painting.clone(), 16, 8);
    assert_eq!(canvas.paintings.len(), 1);
    assert_eq!(config.image().width, 16);
    assert_eq!(config.image().height, 8);
    assert_eq!(config.image().x_extend, peniko::Extend::Pad);
    assert_eq!(config.image().y_extend, peniko::Extend::Repeat);
    let key = config.image().data.id();
    assert_eq!(
        canvas.paintings.get(&key).map(|p| p.painting_id()),
        Some(painting.painting_id())
    );
    let config = config.with_quality(ImageQuality::High);
    assert_eq!(config.image().quality, peniko::ImageQuality::High);
    assert!(matches!(config.brush(), peniko::Brush::Image(_)));
    assert_eq!(canvas.scene.path_tags, vec![1]);
}

#[test]
fn device_choice() {
    assert_eq!(compatible_device(Some(&vec![false, true, true]), 3), Some(1));
    assert_eq!(compatible_device(Some(&vec![false, false]), 2), None);
    assert_eq!(compatible_device(None, 2), Some(0));
    assert_eq!(compatible_device(None, 0), None);
}

#[test]
fn default_canvas_is_empty() {
    let canvas = Canvas::default();
    assert!(canvas.paintings.is_empty());
    assert!(canvas.scene.path_tags.is_empty());
}

#[test]
fn labels_follow_their_sources() {
    let mut ids = IdSource::new();
    let mut g = Gallery::new("main", &mut ids);
    assert_eq!(g.label(), "main");
    let p = g.create_painting(descriptor("blur target"), &mut ids);
    assert_eq!(p.label(), "blur target");
    let mut ids = IdSource::new();
    for _ in 0..9 {
        Gallery::new("skip", &mut ids);
    }
    assert_eq!(Gallery::new_anonymous("blur", &mut ids).label(), "blur-10");
    let mut ids = IdSource::new();
    assert_eq!(Gallery::new_anonymous("blur", &mut ids).label(), "blur-01");
    for _ in 0..121 {
        Gallery::new("skip", &mut ids);
    }
    assert_eq!(Gallery::new_anonymous("x", &mut ids).label(), "x-123");
}

#[test]
fn new_painting_has_no_content() {
    let (mut ids, mut gallery, painting) = setup();
    gallery.paint(&painting).unwrap().as_image(image());
    let fresh = gallery.create_painting(descriptor("fresh"), &mut ids);
    assert!(!gallery.contains(fresh.painting_id()));
    assert!(fresh.painting_id().0 > painting.painting_id().0);
}
