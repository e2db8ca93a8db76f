use acoustic_field_viewer::update_flag::{Flag, UpdateFlag};

const EVERY: [Flag; 8] = [
    Flag::SliceSize,
    Flag::SlicePos,
    Flag::SourcePos,
    Flag::SourceDrive,
    Flag::ColorMap,
    Flag::Wavenum,
    Flag::CameraPos,
    Flag::SourceAlpha,
];

#[test]
fn empty_holds_nothing() {
    let flags = UpdateFlag::empty();
    assert!(flags.is_empty());
    assert_eq!(flags.bits(), 0);
    for f in EVERY {
        assert!(!flags.contains(f));
    }
}

#[test]
fn all_holds_everything() {
    let flags = UpdateFlag::all();
    assert!(!flags.is_empty());
    assert_eq!(flags.bits(), 0xff);
    for f in EVERY {
        assert!(flags.contains(f));
    }
}

#[test]
fn each_flag_has_its_own_bit() {
    let mut seen: u8 = 0;
    for f in EVERY {
        let bit = f.bit();
        assert_eq!(bit.count_ones(), 1);
        assert_eq!(seen & bit, 0);
        seen |= bit;
        assert_eq!(UpdateFlag::of(f).bits(), bit);
    }
    assert_eq!(seen, 0xff);
    assert_eq!(Flag::SliceSize.bit(), 0x01);
    assert_eq!(Flag::SourceDrive.bit(), 0x08);
    assert_eq!(Flag::SourceAlpha.bit(), 0x80);
}

#[test]
fn insert_and_remove_touch_one_flag() {
    let mut flags = UpdateFlag::empty();
    flags.insert(Flag::Wavenum);
    flags.insert(Flag::SlicePos);
    assert!(flags.contains(Flag::Wavenum));
    assert!(flags.contains(Flag::SlicePos));
    assert!(!flags.contains(Flag::CameraPos));
    assert_eq!(flags.bits(), 0x22);
    flags.remove(Flag::Wavenum);
    assert_eq!(flags, UpdateFlag::of(Flag::SlicePos));
    flags.remove(Flag::Wavenum);
    assert_eq!(flags.bits(), 0x02);
    flags.insert(Flag::SlicePos);
    assert_eq!(flags.bits(), 0x02);
}

#[test]
fn union_is_the_flags_of_both() {
    let a = UpdateFlag::of(Flag::SourcePos).union(UpdateFlag::of(Flag::SourceDrive));
    let b = UpdateFlag::of(Flag::SourceDrive).union(UpdateFlag::of(Flag::ColorMap));
    let u = a.union(b);
    assert_eq!(u.bits(), 0x04 | 0x08 | 0x10);
    assert_eq!(u, b.union(a));
    assert_eq!(a.union(UpdateFlag::empty()), a);
    assert_eq!(a.union(a), a);
}

#[test]
fn from_bits_takes_every_byte() {
    for bits in 0..=255u8 {
        let flags = UpdateFlag::from_bits(bits);
        assert_eq!(flags.bits(), bits);
        for f in EVERY {
            assert_eq!(flags.contains(f), bits & f.bit() != 0);
        }
    }
}
