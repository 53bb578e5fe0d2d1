use augeas::{AugFlags, Flags};

#[test]
fn default_is_empty() {
    let f = Flags::default();
    assert_eq!(f.bits(), 0);
    assert!(f.is_empty());
    assert_eq!(f, Flags::empty());
}

#[test]
fn masks_are_engine_bit_values() {
    assert_eq!(AugFlags::NoFlags.mask(), 0);
    assert_eq!(AugFlags::SaveBackup.mask(), 1);
    assert_eq!(AugFlags::SaveNewfile.mask(), 2);
    assert_eq!(AugFlags::TypeCheck.mask(), 4);
    assert_eq!(AugFlags::NoStdinc.mask(), 8);
    assert_eq!(AugFlags::SaveNoop.mask(), 16);
    assert_eq!(AugFlags::NoLoad.mask(), 32);
    assert_eq!(AugFlags::NoModlAutoload.mask(), 64);
    assert_eq!(AugFlags::EnableSpan.mask(), 128);
    assert_eq!(AugFlags::NoErrClose.mask(), 256);
    assert_eq!(AugFlags::TraceModuleLoading.mask(), 512);
}

#[test]
fn compose_by_or() {
    let f = Flags::single(AugFlags::SaveBackup).with(AugFlags::EnableSpan);
    assert_eq!(f.bits(), 1 | 128);
    assert!(f.contains(AugFlags::SaveBackup));
    assert!(f.contains(AugFlags::EnableSpan));
    assert!(!f.contains(AugFlags::NoLoad));
    assert!(!f.is_empty());

    let g = Flags::single(AugFlags::NoLoad).union(f);
    assert_eq!(g.bits(), 1 | 32 | 128);
    assert!(g.contains(AugFlags::NoLoad));
}

#[test]
fn or_with_empty_changes_nothing() {
    let f = Flags::single(AugFlags::TypeCheck);
    assert_eq!(f.union(Flags::empty()).bits(), f.bits());
    assert_eq!(f.with(AugFlags::NoFlags).bits(), f.bits());
}

#[test]
fn from_bits_round_trips() {
    let f = Flags::from_bits(0b1010);
    assert_eq!(f.bits(), 0b1010);
    assert!(f.contains(AugFlags::SaveNewfile));
    assert!(f.contains(AugFlags::NoStdinc));
    assert!(!f.contains(AugFlags::SaveBackup));
}

#[test]
fn every_flag_contained_in_itself() {
    let all = [
        AugFlags::SaveBackup,
        AugFlags::SaveNewfile,
        AugFlags::TypeCheck,
        AugFlags::NoStdinc,
        AugFlags::SaveNoop,
        AugFlags::NoLoad,
        AugFlags::NoModlAutoload,
        AugFlags::EnableSpan,
        AugFlags::NoErrClose,
        AugFlags::TraceModuleLoading,
    ];
    for flag in all {
        let f = Flags::single(flag);
        assert_eq!(f.bits(), flag.mask());
        assert!(f.contains(flag));
    }
}
