use acoustic_field_viewer::acoustic_field_slice_viewer::{
    AcousticFiledSliceViewer, Upload, ONE,
};
use acoustic_field_viewer::plan::Step;
use acoustic_field_viewer::settings::ViewerSettings;
use acoustic_field_viewer::sound_source::SoundSource;
use acoustic_field_viewer::texture::{color_texel, drive_texel, position_texel, RgbColor};
use acoustic_field_viewer::update_flag::{Flag, UpdateFlag};

fn ramp() -> Vec<RgbColor> {
    vec![
        RgbColor { r: 0, g: 0, b: 0 },
        RgbColor { r: 257, g: 514, b: 65535 },
        RgbColor { r: 256, g: 65534, b: 32768 },
    ]
}

fn settings() -> ViewerSettings {
    ViewerSettings::new(400, 300, 62194, 0.6f32.to_bits(), 8.5f32.to_bits())
}

fn sources() -> Vec<SoundSource> {
    vec![
        SoundSource::new([1, 2, 3], [0, 0, ONE], 65535, 0),
        SoundSource::new([4, 5, 6], [0, 0, ONE], 32768, 16384),
    ]
}

fn steps(uploads: &[Upload]) -> Vec<Step> {
    uploads.iter().map(|u| u.step()).collect()
}

fn settled(viewer: &mut AcousticFiledSliceViewer, sources: &[SoundSource]) {
    let uploads = viewer.update(&settings(), sources, UpdateFlag::empty());
    for upload in &uploads {
        viewer.complete(upload.step(), true);
    }
}

#[test]
fn texel_of_a_drive() {
    assert_eq!(drive_texel(&SoundSource::new([0; 3], [0; 3], 65535, 0)), [0, 255, 0, 0]);
    assert_eq!(drive_texel(&SoundSource::new([0; 3], [0; 3], 0, 65535)), [255, 0, 0, 0]);
    assert_eq!(drive_texel(&SoundSource::new([0; 3], [0; 3], 32768, 16384)), [64, 128, 0, 0]);
    assert_eq!(drive_texel(&SoundSource::new([0; 3], [0; 3], 128, 129)), [1, 0, 0, 0]);
}

#[test]
fn texel_of_a_position() {
    let s = SoundSource::new([10, 20, 30], [40, 50, 60], 1, 2);
    assert_eq!(position_texel(&s), [10, 20, 30, 0]);
}

#[test]
fn texel_of_a_colour() {
    let c = RgbColor { r: 256, g: 257, b: 65535 };
    assert_eq!(color_texel(&c, 62194), [0, 1, 255, 242]);
    assert_eq!(color_texel(&c, 0), [0, 1, 255, 0]);
}

#[test]
fn fresh_viewer_has_every_flag_raised() {
    let viewer = AcousticFiledSliceViewer::new(ramp());
    assert_eq!(viewer.pending(), UpdateFlag::all());
    assert_eq!(viewer.color_map().to_vec(), ramp());
    assert_eq!(
        viewer.model(),
        [[ONE, 0, 0, 0], [0, ONE, 0, 0], [0, 0, ONE, 0], [0, 0, 0, ONE]]
    );
    assert_eq!(f32::from_bits(ONE), 1.0);
}

#[test]
fn move_and_rotate_keep_what_the_other_set() {
    let mut viewer = AcousticFiledSliceViewer::new(ramp());
    viewer.move_to([7, 8, 9, ONE]);
    assert_eq!(
        viewer.model(),
        [[ONE, 0, 0, 0], [0, ONE, 0, 0], [0, 0, ONE, 0], [7, 8, 9, ONE]]
    );
    viewer.rotate_to([[1, 2, 3, 4], [5, 6, 7, 8], [9, 10, 11, 12], [13, 14, 15, 16]]);
    assert_eq!(
        viewer.model(),
        [[1, 2, 3, 4], [5, 6, 7, 8], [9, 10, 11, 12], [7, 8, 9, ONE]]
    );
    viewer.move_to([0, 0, 0, ONE]);
    assert_eq!(
        viewer.model(),
        [[1, 2, 3, 4], [5, 6, 7, 8], [9, 10, 11, 12], [0, 0, 0, ONE]]
    );
    assert_eq!(viewer.pending(), UpdateFlag::all());
}

#[test]
fn first_frame_builds_everything_in_order() {
    let mut viewer = AcousticFiledSliceViewer::new(ramp());
    viewer.move_to([7, 8, 9, ONE]);
    let uploads = viewer.update(&settings(), &sources(), UpdateFlag::empty());
    assert_eq!(
        steps(&uploads),
        vec![
            Step::Geometry,
            Step::DriveTexture,
            Step::SourceCount,
            Step::PositionTexture,
            Step::ColorMap,
            Step::Wavenumber,
            Step::Transform,
        ]
    );
    match &uploads[0] {
        Upload::Geometry { vertices, indices } => {
            let corners: Vec<[i16; 4]> = vertices.iter().map(|v| v.a_pos).collect();
            assert_eq!(
                corners,
                vec![[-200, -150, 0, 1], [200, -150, 0, 1], [200, 150, 0, 1], [-200, 150, 0, 1]]
            );
            assert_eq!(indices, &vec![0u16, 1, 2, 2, 3, 0]);
        }
        other => panic!("{:?}", other),
    }
    match &uploads[1] {
        Upload::DriveTexture { texels } => {
            assert_eq!(texels, &vec![[0u8, 255, 0, 0], [64, 128, 0, 0]])
        }
        other => panic!("{:?}", other),
    }
    match &uploads[2] {
        Upload::SourceCount { count } => assert_eq!(*count, 2),
        other => panic!("{:?}", other),
    }
    match &uploads[3] {
        Upload::PositionTexture { texels } => {
            assert_eq!(texels, &vec![[1u32, 2, 3, 0], [4, 5, 6, 0]])
        }
        other => panic!("{:?}", other),
    }
    match &uploads[4] {
        Upload::ColorMap { texels, color_scale } => {
            assert_eq!(texels, &vec![[0u8, 0, 0, 242], [1, 2, 255, 242], [0, 254, 127, 242]]);
            assert_eq!(f32::from_bits(*color_scale), 0.6);
        }
        other => panic!("{:?}", other),
    }
    match &uploads[5] {
        Upload::Wavenumber { wave_length } => assert_eq!(f32::from_bits(*wave_length), 8.5),
        other => panic!("{:?}", other),
    }
    match &uploads[6] {
        Upload::Transform { model } => assert_eq!(model[3], [7, 8, 9, ONE]),
        other => panic!("{:?}", other),
    }
    let waiting = UpdateFlag::of(Flag::SliceSize)
        .union(UpdateFlag::of(Flag::SourceDrive))
        .union(UpdateFlag::of(Flag::SourcePos))
        .union(UpdateFlag::of(Flag::ColorMap));
    assert_eq!(viewer.pending(), waiting);
}

#[test]
fn second_frame_without_new_flags_does_nothing() {
    let mut viewer = AcousticFiledSliceViewer::new(ramp());
    settled(&mut viewer, &sources());
    assert!(viewer.pending().is_empty());
    let uploads = viewer.update(&settings(), &sources(), UpdateFlag::empty());
    assert!(uploads.is_empty());
    assert!(viewer.pending().is_empty());
}

#[test]
fn failed_allocation_is_tried_again() {
    let mut viewer = AcousticFiledSliceViewer::new(ramp());
    let uploads = viewer.update(&settings(), &sources(), UpdateFlag::empty());
    for upload in &uploads {
        let ok = upload.step() != Step::DriveTexture;
        viewer.complete(upload.step(), ok);
    }
    assert_eq!(viewer.pending(), UpdateFlag::of(Flag::SourceDrive));
    let uploads = viewer.update(&settings(), &sources(), UpdateFlag::empty());
    assert_eq!(steps(&uploads), vec![Step::DriveTexture]);
    viewer.complete(Step::DriveTexture, true);
    assert!(viewer.pending().is_empty());
}

#[test]
fn each_flag_rebuilds_its_own_resource() {
    let cases = [
        (Flag::SliceSize, vec![Step::Geometry, Step::Transform]),
        (Flag::SlicePos, vec![Step::Transform]),
        (Flag::SourcePos, vec![Step::SourceCount, Step::PositionTexture]),
        (Flag::SourceDrive, vec![Step::DriveTexture]),
        (Flag::ColorMap, vec![Step::ColorMap]),
        (Flag::Wavenum, vec![Step::Wavenumber]),
        (Flag::CameraPos, vec![Step::Transform]),
        (Flag::SourceAlpha, vec![]),
    ];
    for (flag, expected) in cases {
        let mut viewer = AcousticFiledSliceViewer::new(ramp());
        settled(&mut viewer, &sources());
        let uploads = viewer.update(&settings(), &sources(), UpdateFlag::of(flag));
        assert_eq!(steps(&uploads), expected, "{:?}", flag);
    }
}

#[test]
fn empty_array_builds_no_texture() {
    let mut viewer = AcousticFiledSliceViewer::new(ramp());
    settled(&mut viewer, &[]);
    let flags = UpdateFlag::of(Flag::SourceDrive).union(UpdateFlag::of(Flag::SourcePos));
    let uploads = viewer.update(&settings(), &[], flags);
    assert_eq!(steps(&uploads), vec![Step::SourceCount]);
    match &uploads[0] {
        Upload::SourceCount { count } => assert_eq!(*count, 0),
        other => panic!("{:?}", other),
    }
    assert!(viewer.pending().is_empty());
    assert!(AcousticFiledSliceViewer::update_drive_texture(&[]).is_none());
    assert!(AcousticFiledSliceViewer::update_position_texture(&[]).is_none());
    assert_eq!(
        AcousticFiledSliceViewer::update_drive_texture(&sources()),
        Some(vec![[0u8, 255, 0, 0], [64, 128, 0, 0]])
    );
    assert_eq!(
        AcousticFiledSliceViewer::update_position_texture(&sources()),
        Some(vec![[1u32, 2, 3, 0], [4, 5, 6, 0]])
    );
}

#[test]
fn colour_map_texture_of_no_samples() {
    assert!(AcousticFiledSliceViewer::update_color_map_texture(&[], 65535).is_empty());
    assert_eq!(
        AcousticFiledSliceViewer::update_color_map_texture(&ramp()[1..2], 65535),
        vec![[1u8, 2, 255, 255]]
    );
}

#[test]
fn steps_that_allocate_nothing_clear_nothing() {
    let mut viewer = AcousticFiledSliceViewer::new(ramp());
    let _ = viewer.update(&settings(), &sources(), UpdateFlag::empty());
    let before = viewer.pending();
    viewer.complete(Step::SourceCount, true);
    viewer.complete(Step::Wavenumber, true);
    viewer.complete(Step::Transform, true);
    viewer.complete(Step::Geometry, false);
    assert_eq!(viewer.pending(), before);
    viewer.complete(Step::Geometry, true);
    assert!(!viewer.pending().contains(Flag::SliceSize));
}
