use acoustic_field_viewer::acoustic_field_slice_viewer::{AcousticFiledSliceViewer, Upload};
use acoustic_field_viewer::plan::Step;
use acoustic_field_viewer::command::{Command, CommandFeed};
use acoustic_field_viewer::frame::tick;
use acoustic_field_viewer::settings::ViewerSettings;
use acoustic_field_viewer::sound_source::SoundSource;
use acoustic_field_viewer::update_flag::{Flag, UpdateFlag};

fn source_at(x: f32, y: f32, z: f32) -> SoundSource {
    let up = [0f32.to_bits(), 0f32.to_bits(), 1f32.to_bits()];
    SoundSource::new([x.to_bits(), y.to_bits(), z.to_bits()], up, 65535, 0)
}

/// The pressure at `p`, as its real and imaginary part, summed over the
/// sources that the two textures describe.
fn pressure(p: [f64; 3], positions: &[[u32; 4]], drives: &[[u8; 4]], wavenum: f64) -> (f64, f64) {
    let mut re = 0.0;
    let mut im = 0.0;
    for (pos, drive) in positions.iter().zip(drives.iter()) {
        let dx = p[0] - f64::from(f32::from_bits(pos[0]));
        let dy = p[1] - f64::from(f32::from_bits(pos[1]));
        let dz = p[2] - f64::from(f32::from_bits(pos[2]));
        let r = (dx * dx + dy * dy + dz * dz).sqrt();
        let phase = f64::from(drive[0]) / 255.0 * 2.0 * std::f64::consts::PI;
        let amp = f64::from(drive[1]) / 255.0;
        re += amp / r * (wavenum * r - phase).cos();
        im += amp / r * (wavenum * r - phase).sin();
    }
    (re, im)
}

#[test]
fn four_sources_add_up_at_their_centre() {
    let mut feed = CommandFeed::new();
    let mut flags = UpdateFlag::empty();
    let reset = Command::Reset(vec![
        source_at(0.0, 0.0, 0.0),
        source_at(10.0, 0.0, 0.0),
        source_at(0.0, 10.0, 0.0),
        source_at(10.0, 10.0, 0.0),
    ]);
    feed.apply(&reset, &mut flags).unwrap();

    let mut viewer = AcousticFiledSliceViewer::new(Vec::new());
    let settings = ViewerSettings::new(400, 400, 65535, 1f32.to_bits(), 8.5f32.to_bits());
    let uploads = viewer.update(&settings, feed.sources(), flags);
    let mut positions = Vec::new();
    let mut drives = Vec::new();
    let mut count = 0;
    for upload in uploads {
        match upload {
            Upload::PositionTexture { texels } => positions = texels,
            Upload::DriveTexture { texels } => drives = texels,
            Upload::SourceCount { count: n } => count = n,
            _ => {}
        }
    }
    assert_eq!(count, 4);
    assert_eq!(positions.len(), 4);
    assert_eq!(drives, vec![[0u8, 255, 0, 0]; 4]);

    let mut wave_length = 0.0;
    for upload in viewer.update(&settings, feed.sources(), UpdateFlag::all()) {
        if let Upload::Wavenumber { wave_length: word } = upload {
            wave_length = f64::from(f32::from_bits(word));
        }
    }
    assert_eq!(wave_length, 8.5);
    let wavenum = 2.0 * std::f64::consts::PI / wave_length;
    let (re, im) = pressure([5.0, 5.0, 0.0], &positions, &drives, wavenum);
    let magnitude = (re * re + im * im).sqrt();
    let r = 50f64.sqrt();
    assert!((magnitude - 4.0 / r).abs() < 1e-9);
}

#[test]
fn frame_applies_commands_before_it_encodes() {
    let mut feed = CommandFeed::new();
    let mut viewer = AcousticFiledSliceViewer::new(Vec::new());
    let settings = ViewerSettings::new(10, 10, 65535, 1f32.to_bits(), 8.5f32.to_bits());
    let first = tick(&mut feed, &mut viewer, &[], &settings, UpdateFlag::empty());
    for upload in &first.uploads {
        viewer.complete(upload.step(), true);
    }
    assert!(viewer.pending().is_empty());

    let commands = vec![
        Command::Reset(vec![source_at(1.0, 2.0, 3.0), source_at(4.0, 5.0, 6.0)]),
        Command::UpdateDrive { amplitudes: vec![257], phases: vec![514, 771] },
        Command::Clear,
        Command::UpdateDrive { amplitudes: vec![65535, 32768], phases: vec![0, 65535] },
    ];
    let frame = tick(&mut feed, &mut viewer, &commands, &settings, UpdateFlag::of(Flag::Wavenum));
    assert_eq!(frame.mismatched, 1);
    let steps: Vec<Step> = frame.uploads.iter().map(|u| u.step()).collect();
    assert_eq!(
        steps,
        vec![Step::DriveTexture, Step::SourceCount, Step::PositionTexture, Step::Wavenumber]
    );
    match &frame.uploads[0] {
        Upload::DriveTexture { texels } => {
            assert_eq!(texels, &vec![[0u8, 255, 0, 0], [255, 128, 0, 0]])
        }
        other => panic!("{:?}", other),
    }
    match &frame.uploads[2] {
        Upload::PositionTexture { texels } => assert_eq!(
            texels,
            &vec![
                [1f32.to_bits(), 2f32.to_bits(), 3f32.to_bits(), 0],
                [4f32.to_bits(), 5f32.to_bits(), 6f32.to_bits(), 0],
            ]
        ),
        other => panic!("{:?}", other),
    }
    assert_eq!(
        viewer.pending(),
        UpdateFlag::of(Flag::SourceDrive).union(UpdateFlag::of(Flag::SourcePos))
    );

    let clear = tick(&mut feed, &mut viewer, &[Command::Clear], &settings, UpdateFlag::empty());
    let steps: Vec<Step> = clear.uploads.iter().map(|u| u.step()).collect();
    assert_eq!(steps, vec![Step::DriveTexture, Step::SourceCount, Step::PositionTexture]);
    match &clear.uploads[0] {
        Upload::DriveTexture { texels } => assert_eq!(texels, &vec![[0u8, 0, 0, 0]; 2]),
        other => panic!("{:?}", other),
    }
}
