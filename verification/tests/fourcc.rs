//! Four-character code packing, unpacking and display.

use audio_toolbox::fourcc::{format_ostype, pack_fourcc, unpack_fourcc};
use audio_toolbox::kinds;

#[test]
fn pack_matches_known_codes() {
    assert_eq!(pack_fourcc(b'a', b'u', b'o', b'u'), kinds::kAudioUnitType_Output);
    assert_eq!(pack_fourcc(b'a', b'u', b'm', b'u'), kinds::kAudioUnitType_MusicDevice);
    assert_eq!(pack_fourcc(b'a', b'p', b'p', b'l'), kinds::kAudioUnitManufacturer_Apple);
    assert_eq!(pack_fourcc(b'd', b'e', b'f', b' '), kinds::kAudioUnitSubType_DefaultOutput);
    assert_eq!(pack_fourcc(b'g', b'e', b'n', b'r'), kinds::kAudioUnitSubType_GenericOutput);
}

#[test]
fn unpack_splits_known_codes() {
    assert_eq!(unpack_fourcc(kinds::kAudioUnitType_Output), (b'a', b'u', b'o', b'u'));
    assert_eq!(unpack_fourcc(kinds::kAudioUnitManufacturer_Apple), (b'a', b'p', b'p', b'l'));
}

#[test]
fn roundtrip_all_printable_pairs_high_positions() {
    for a in 0x20u8..0x7fu8 {
        for b in 0x20u8..0x7fu8 {
            let v = pack_fourcc(a, b, b'x', b'y');
            assert_eq!(unpack_fourcc(v), (a, b, b'x', b'y'));
        }
    }
}

#[test]
fn roundtrip_all_printable_pairs_low_positions() {
    for c in 0x20u8..0x7fu8 {
        for d in 0x20u8..0x7fu8 {
            let v = pack_fourcc(b'A', b'!', c, d);
            assert_eq!(unpack_fourcc(v), (b'A', b'!', c, d));
        }
    }
}

#[test]
fn roundtrip_printable_diagonals() {
    for a in 0x20u8..0x7fu8 {
        for b in 0x20u8..0x7fu8 {
            let c = 0x7e - (a - 0x20);
            let d = 0x7e - (b - 0x20);
            let v = pack_fourcc(a, b, c, d);
            assert_eq!(unpack_fourcc(v), (a, b, c, d));
        }
    }
}

#[test]
fn repack_identity_on_samples() {
    for &v in &[0u32, 1, 0x2020_2020, 0x7f7f_7f7f, 0xffff_ffff, 0x6175_6f75] {
        let (a, b, c, d) = unpack_fourcc(v);
        assert_eq!(pack_fourcc(a, b, c, d), v);
    }
}

#[test]
fn format_ostype_display_form() {
    assert_eq!(format_ostype(pack_fourcc(b'T', b'e', b's', b't')), "'Test' (0x54657374)");
    assert_eq!(
        format_ostype(kinds::kAudioUnitType_Output),
        "'auou' (0x61756f75)"
    );
    assert_eq!(
        format_ostype(kinds::kAudioUnitManufacturer_Apple),
        "'appl' (0x6170706c)"
    );
}

#[test]
fn format_ostype_zero_pads_hex() {
    assert_eq!(format_ostype(pack_fourcc(0, 0, 0, b'!')), "'\0\0\0!' (0x00000021)");
}
