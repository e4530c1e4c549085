use cortex_m0::bitfield::{pack, read_flag, unpack, valid_index, write_flag, Bitfield};

#[test]
fn test_pack_then_unpack_on_zero_word() {
    for offset in 0..32u32 {
        for width in 1..=(32 - offset) {
            let field = Bitfield::at(offset, width);
            let max: u32 = if width == 32 { u32::MAX } else { (1 << width) - 1 };
            for value in [0, 1, max / 2, max] {
                let word = pack(0, field, value);
                assert_eq!(unpack(word, field), value);
                assert_eq!(word & !field.mask(), 0);
                assert_eq!(word, value << offset);
            }
        }
    }
}

#[test]
fn test_pack_keeps_bits_outside_the_field() {
    let field = Bitfield::at(8, 4);
    assert_eq!(field.mask(), 0x0000_0F00);
    assert_eq!(pack(0xFFFF_FFFF, field, 0x5), 0xFFFF_F5FF);
    assert_eq!(pack(0x1234_5678, field, 0xA), 0x1234_5A78);
    assert_eq!(unpack(0x1234_5A78, field), 0xA);
}

#[test]
fn test_pack_cuts_the_value_to_the_width() {
    let field = Bitfield::at(4, 2);
    assert_eq!(pack(0, field, 0xFF), 0x30);
    assert_eq!(unpack(pack(0, field, 0xFF), field), 0x3);
}

#[test]
fn test_whole_word_field() {
    let field = Bitfield::at(0, 32);
    assert_eq!(field.mask(), 0xFFFF_FFFF);
    assert_eq!(pack(0x1234_5678, field, 0xDEAD_BEEF), 0xDEAD_BEEF);
    assert_eq!(unpack(0xDEAD_BEEF, field), 0xDEAD_BEEF);
}

#[test]
fn test_highest_bit_field() {
    let field = Bitfield::flag(31);
    assert_eq!(field.mask(), 0x8000_0000);
    assert_eq!(pack(0, field, 1), 0x8000_0000);
    assert_eq!(unpack(0x8000_0000, field), 1);
    assert_eq!(unpack(0x7FFF_FFFF, field), 0);
}

#[test]
fn test_fields_apart_do_not_interfere() {
    let first = Bitfield::at(3, 5);
    let second = Bitfield::at(8, 7);
    for word in [0u32, 0xFFFF_FFFF, 0xA5A5_A5A5] {
        let once = pack(word, first, 0x15);
        let twice = pack(once, second, 0x5B);
        assert_eq!(unpack(twice, first), 0x15);
        assert_eq!(unpack(twice, second), 0x5B);
        assert_eq!(twice, pack(pack(word, second, 0x5B), first, 0x15));
    }
}

#[test]
fn test_second_write_replaces_the_first() {
    let field = Bitfield::at(10, 3);
    assert_eq!(pack(pack(0xFFFF_0000, field, 7), field, 2), pack(0xFFFF_0000, field, 2));
    assert_eq!(pack(0xCAFE_F00D, field, unpack(0xCAFE_F00D, field)), 0xCAFE_F00D);
}

#[test]
fn test_indexed_fields() {
    assert_eq!(Bitfield::indexed(2, 0), Bitfield { offset: 0, width: 2 });
    assert_eq!(Bitfield::indexed(2, 3), Bitfield { offset: 6, width: 2 });
    assert_eq!(Bitfield::indexed(2, 15), Bitfield { offset: 30, width: 2 });
    assert_eq!(Bitfield::indexed(1, 15), Bitfield { offset: 15, width: 1 });
    assert_eq!(Bitfield::indexed(4, 7), Bitfield { offset: 28, width: 4 });
    assert_eq!(pack(0, Bitfield::indexed(2, 15), 0b10), 0x8000_0000);
}

#[test]
fn test_flags() {
    assert_eq!(write_flag(0, 5, true), 0x20);
    assert_eq!(write_flag(0xFFFF_FFFF, 5, false), 0xFFFF_FFDF);
    assert_eq!(write_flag(0x20, 5, true), 0x20);
    assert!(read_flag(0x20, 5));
    assert!(!read_flag(0x20, 4));
    assert!(!read_flag(0x20, 6));
}

#[test]
fn test_valid_index_is_at_most_fifteen() {
    for index in 0..=15u8 {
        assert!(valid_index(index));
    }
    for index in 16..=255u8 {
        assert!(!valid_index(index));
    }
}
