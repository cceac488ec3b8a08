use vello::recording::{
    BufProxy, Command, ImageProxy, Recording, ResolveError, ResolveErrorKind, ResourceProxy,
};
use vello::render::{align_up, render, size_to_words, words_to_bytes, Config, Scene};
use vello::shaders::{init_shaders, BindType, ImageFormat, ShaderId, ShaderRegistry};

fn registry() -> (ShaderRegistry, vello::shaders::Shaders) {
    let mut reg = ShaderRegistry::new();
    let shaders = init_shaders(&mut reg);
    (reg, shaders)
}

#[test]
fn align_up_values() {
    assert_eq!(align_up(0, 1024), 0);
    assert_eq!(align_up(1, 1024), 1024);
    assert_eq!(align_up(1024, 1024), 1024);
    assert_eq!(align_up(1025, 1024), 2048);
    assert_eq!(align_up(5, 4), 8);
    assert_eq!(align_up(5, 1), 5);
}

#[test]
fn size_to_words_values() {
    assert_eq!(size_to_words(0), 0);
    assert_eq!(size_to_words(10), 2);
    assert_eq!(size_to_words(4096), 1024);
}

#[test]
fn words_are_little_endian() {
    assert_eq!(
        words_to_bytes(&vec![0x0403_0201, 1024]),
        vec![1, 2, 3, 4, 0, 4, 0, 0]
    );
}

#[test]
fn shader_layouts_are_registered() {
    let (reg, shaders) = registry();
    assert_eq!(reg.len(), 5);
    assert_eq!(shaders.pathtag_reduce, ShaderId(0));
    assert_eq!(shaders.pathtag_scan, ShaderId(1));
    assert_eq!(shaders.path_coarse, ShaderId(2));
    assert_eq!(shaders.backdrop, ShaderId(3));
    assert_eq!(shaders.fine, ShaderId(4));
    assert_eq!(
        reg.layout(shaders.backdrop).unwrap(),
        &vec![BindType::Uniform, BindType::Buffer]
    );
    assert_eq!(
        reg.layout(shaders.fine).unwrap()[3],
        BindType::Image(ImageFormat::Rgba8)
    );
    assert!(reg.layout(ShaderId(5)).is_none());
}

fn dispatches(rec: &Recording) -> Vec<(ShaderId, (u32, u32, u32), Vec<ResourceProxy>)> {
    rec.commands
        .iter()
        .filter_map(|c| match c {
            Command::Dispatch(s, g, r) => Some((*s, *g, r.clone())),
            _ => None,
        })
        .collect()
}

#[test]
fn empty_scene_runs_every_stage() {
    let (reg, shaders) = registry();
    let scene = Scene { path_tags: vec![], path_data: vec![] };
    let (rec, image) = render(&scene, &shaders).unwrap();
    assert_eq!(
        image,
        ImageProxy { width: 1024, height: 1024, format: ImageFormat::Rgba8, id: 6 }
    );
    assert_eq!(rec.commands.len(), 8);
    let d = dispatches(&rec);
    let stages: Vec<ShaderId> = d.iter().map(|x| x.0).collect();
    assert_eq!(
        stages,
        vec![
            shaders.pathtag_reduce,
            shaders.pathtag_scan,
            shaders.path_coarse,
            shaders.backdrop,
            shaders.fine
        ]
    );
    assert_eq!(d[0].1, (0, 1, 1));
    assert_eq!(d[2].1, (0, 1, 1));
    assert_eq!(d[3].1, (64, 1, 1));
    assert_eq!(d[4].1, (64, 64, 1));
    assert_eq!(d[4].2[3], ResourceProxy::Image(image));
    assert!(matches!(&rec.commands[0], Command::Upload(p, b) if b.is_empty() && p.size == 0));
    assert!(matches!(&rec.commands[4], Command::Clear(BufProxy { size: 32776, id: 4 })));
    assert_eq!(rec.validate(&reg), Ok(()));
}

#[test]
fn scene_buffer_and_config() {
    let (reg, shaders) = registry();
    let scene = Scene { path_tags: vec![1, 2, 3], path_data: vec![9; 8] };
    let (rec, _) = render(&scene, &shaders).unwrap();
    match &rec.commands[0] {
        Command::Upload(p, bytes) => {
            assert_eq!(*p, BufProxy { size: 1032, id: 0 });
            assert_eq!(&bytes[..3], &[1, 2, 3]);
            assert!(bytes[3..1024].iter().all(|b| *b == 0));
            assert_eq!(&bytes[1024..], &[9; 8]);
        }
        other => panic!("unexpected {other:?}"),
    }
    match &rec.commands[1] {
        Command::UploadUniform(p, bytes) => {
            assert_eq!(*p, BufProxy { size: 56, id: 1 });
            assert_eq!(&bytes[0..4], &[64, 0, 0, 0]);
            assert_eq!(&bytes[8..12], &[0, 4, 0, 0]);
            assert_eq!(&bytes[36..40], &[0, 1, 0, 0]);
        }
        other => panic!("unexpected {other:?}"),
    }
    let d = dispatches(&rec);
    assert_eq!(d[0].1, (1, 1, 1));
    assert_eq!(d[2].1, (1, 1, 1));
    assert_eq!(
        d[1].2[3],
        ResourceProxy::Buf(BufProxy { size: 256 * 12, id: 3 })
    );
    assert_eq!(rec.validate(&reg), Ok(()));
}

#[test]
fn config_words_in_field_order() {
    let c = Config {
        width_in_tiles: 1,
        height_in_tiles: 2,
        target_width: 3,
        target_height: 4,
        n_drawobj: 5,
        n_path: 6,
        n_clip: 7,
        bin_data_start: 8,
        pathtag_base: 9,
        pathdata_base: 10,
        drawtag_base: 11,
        drawdata_base: 12,
        transform_base: 13,
        linewidth_base: 14,
    };
    assert_eq!(c.to_words(), (1..=14).collect::<Vec<u32>>());
}

#[test]
fn identical_scenes_record_identical_work() {
    let (_, shaders) = registry();
    let scene = Scene { path_tags: vec![5; 1500], path_data: vec![7; 33] };
    let (a, ia) = render(&scene, &shaders).unwrap();
    let (b, ib) = render(&scene.clone(), &shaders).unwrap();
    assert_eq!(ia, ib);
    assert_eq!(format!("{:?}", a.commands), format!("{:?}", b.commands));
    assert_eq!(a.next_id, 7);
    assert_eq!(a.labels, b.labels);
    assert_eq!(
        a.labels,
        vec!["scene", "config", "reduced_buf", "tagmonoid_buf", "tiles_buf", "segments_buf", "out_image"]
    );
}

#[test]
fn recording_hands_out_fresh_ids() {
    let mut rec = Recording::new();
    let a = rec.create_buffer("a", 16);
    let b = rec.upload("b", vec![1, 2, 3]);
    let c = rec.create_image("c", 2, 3, ImageFormat::Bgra8);
    assert_eq!(a, BufProxy { size: 16, id: 0 });
    assert_eq!(b, BufProxy { size: 3, id: 1 });
    assert_eq!(c, ImageProxy { width: 2, height: 3, format: ImageFormat::Bgra8, id: 2 });
    assert_eq!(rec.labels, vec!["a".to_string(), "b".to_string(), "c".to_string()]);
    assert_eq!(rec.commands.len(), 1);
    rec.clear_all(a);
    assert!(matches!(rec.commands[1], Command::Clear(p) if p == a));
}

#[test]
fn validation_errors() {
    let (reg, shaders) = registry();
    let mut rec = Recording::new();
    let cfg = rec.upload_uniform("config", vec![0; 4]);
    let buf = rec.create_buffer("buf", 8);
    let img = rec.create_image("img", 4, 4, ImageFormat::Bgra8);
    rec.dispatch(shaders.backdrop, (1, 1, 1), vec![ResourceProxy::Buf(cfg), ResourceProxy::Buf(buf)]);
    assert_eq!(rec.validate(&reg), Ok(()));

    rec.dispatch(ShaderId(9), (1, 1, 1), vec![]);
    assert_eq!(
        rec.validate(&reg),
        Err(ResolveError { command: 2, kind: ResolveErrorKind::UnknownShader })
    );
    rec.commands.pop();

    rec.dispatch(shaders.backdrop, (1, 1, 1), vec![ResourceProxy::Buf(cfg)]);
    assert_eq!(
        rec.validate(&reg),
        Err(ResolveError { command: 2, kind: ResolveErrorKind::BindingMismatch })
    );
    rec.commands.pop();

    rec.dispatch(
        shaders.fine,
        (1, 1, 1),
        vec![
            ResourceProxy::Buf(cfg),
            ResourceProxy::Buf(buf),
            ResourceProxy::Buf(buf),
            ResourceProxy::Image(img),
        ],
    );
    assert_eq!(
        rec.validate(&reg),
        Err(ResolveError { command: 2, kind: ResolveErrorKind::BindingMismatch })
    );
    rec.commands.pop();

    rec.clear_all(BufProxy { size: 8, id: 99 });
    assert_eq!(
        rec.validate(&reg),
        Err(ResolveError { command: 2, kind: ResolveErrorKind::UnknownProxy })
    );
    rec.commands.pop();

    rec.commands.push(Command::Upload(buf, vec![0; 3]));
    assert_eq!(
        rec.validate(&reg),
        Err(ResolveError { command: 2, kind: ResolveErrorKind::SizeMismatch })
    );
}
