use netparse::parse::{enter_bits, exit_bits, take_bits, ErrorKind};
use netparse::ux::{low_bits, U1, U12, U13, U2, U20, U3, U4, U6, U7};

#[test]
fn wrapping_arithmetic_stays_in_width() {
    assert_eq!(U4::new(9).wrapping_add(U4::new(9)).value(), 2);
    assert_eq!(U4::new(3).wrapping_sub(U4::new(5)).value(), 14);
    assert_eq!(U3::new(7).wrapping_add(U3::new(1)).value(), 0);
    assert_eq!(U13::new(0x1FFF).wrapping_add(U13::new(2)).value(), 1);
    assert_eq!(U20::new(0xFFFFF).wrapping_add(U20::new(0xFFFFF)).value(), 0xFFFFE);
    assert_eq!(U1::new(1).wrapping_add(U1::new(1)).value(), 0);
}

#[test]
fn masked_value_is_unchanged() {
    for v in 0..16u8 {
        let x = U4::new(v);
        assert_eq!(x.and(U4::max_value()).value(), v);
        assert_eq!(x.value() & U4::MAX, v);
    }
    assert_eq!(low_bits(0x1234, 8), 0x34);
    assert_eq!(low_bits(0xFFFF, 12), 0xFFF);
}

#[test]
fn bitwise_and_shifts() {
    assert_eq!(U6::new(0b101010).or(U6::new(0b010101)).value(), 63);
    assert_eq!(U6::new(0b101010).xor(U6::new(0b111111)).value(), 0b010101);
    assert_eq!(U6::new(0b101010).not().value(), 0b010101);
    assert_eq!(U7::new(0x41).shl(1).value(), 0x02);
    assert_eq!(U12::new(0xABC).shr(4).value(), 0xAB);
    assert_eq!(U4::new(3).shl(5).value(), 0);
    assert_eq!(U4::new(3).shl(2).value(), 12);
    assert_eq!(U4::new(0xF).shr(7).value(), 0);
    assert_eq!(U2::min_value().value(), 0);
    assert_eq!(U2::max_value().value(), 3);
    assert!(U4::new(3) < U4::new(4));
}

#[test]
fn constructor_rejects_overflow() {
    assert_eq!(U4::try_new(16), Err(ErrorKind::NumericOverflow));
    assert_eq!(U4::try_new(15).unwrap().value(), 15);
    assert!(U12::try_new(0x1000).is_err());
}

#[test]
fn bit_cursor_reads_msb_first_and_checks_alignment() {
    let b = [0b1011_0010u8, 0xFF];
    let c = enter_bits(0);
    let (c, x) = take_bits(&b, c, 3).unwrap();
    assert_eq!(x, 0b101);
    assert_eq!(exit_bits(c).unwrap_err().errors[0].1, ErrorKind::Unaligned);
    let (c, y) = take_bits(&b, c, 5).unwrap();
    assert_eq!(y, 0b10010);
    assert_eq!(exit_bits(c).unwrap(), 1);
    let (c, z) = U4::parse(&b, c).unwrap();
    assert_eq!(z.value(), 15);
    assert!(take_bits(&b, c, 5).is_err());
}
