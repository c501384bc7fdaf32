use nes_core::bits::join_bytes as join;
use nes_core::bits::high_byte as high;
use nes_core::bits::low_byte as low;
use nes_core::bits::page_crossed;
use nes_core::bits::rel_addr as rel;
use nes_core::bits::reverse_bits;
use nes_core::bits::unchecked_add as wadd;
use nes_core::bits::unchecked_sub as wsub;

#[test]
fn join_bytes() {
    assert_eq!(join(0x12, 0x34), 0x1234);
}

#[test]
fn high_byte() {
    assert_eq!(high(0x1234), 0x12);
}

#[test]
fn low_byte() {
    assert_eq!(low(0x1234), 0x34);
}

#[test]
fn cross_page() {
    assert_eq!(page_crossed(0x0123, 0x234), true);
    assert_eq!(page_crossed(0x0123, 0x134), false);
}

#[test]
fn unchecked_add() {
    assert_eq!(wadd(15u8, 15u8), 30u8);
    assert_eq!(wadd(wadd(15u8, 15u8), 15u8), 45u8);
    assert_eq!(wadd(150u8, 150u8), 44u8);
    assert_eq!(wadd(wadd(100u8, 100u8), 100u8), 44u8);
}

#[test]
fn unchecked_sub() {
    assert_eq!(wsub(30u8, 15u8), 15u8);
    assert_eq!(wsub(wsub(90u8, 30u8), 30u8), 30u8);
    assert_eq!(wsub(100u8, 150u8), 206u8);
    assert_eq!(wsub(wsub(100u8, 50u8), 100u8), 206u8);
}

#[test]
fn rel_addr() {
    assert_eq!(rel(0x1234, 10), 0x123E);
    assert_eq!(rel(0x1234, -10), 0x122A);
}

#[test]
fn bit_reversal() {
    for original in 0..=0xFFu8 {
        let mut b = original;
        b = (b & 0xF0) >> 4 | (b & 0x0F) << 4;
        b = (b & 0xCC) >> 2 | (b & 0x33) << 2;
        b = (b & 0xAA) >> 1 | (b & 0x55) << 1;
        assert_eq!(reverse_bits(original), b);
    }
}

#[test]
fn rel_addr_wraps_at_both_ends() {
    assert_eq!(rel(0xFFFF, 1), 0x0000);
    assert_eq!(rel(0x0000, -1), 0xFFFF);
}
