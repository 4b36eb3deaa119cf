use uniclip::wire::{get_u32, get_u64, native_order, put_u32, put_u64, ByteOrder};

#[test]
fn integers_are_laid_out_in_order() {
    let mut little = Vec::new();
    put_u32(&mut little, 0x0102_0304, ByteOrder::Little);
    assert_eq!(little, vec![4, 3, 2, 1]);
    put_u64(&mut little, 0x1122_3344_5566_7788, ByteOrder::Little);
    assert_eq!(little[4..], 0x1122_3344_5566_7788u64.to_le_bytes());
    let mut big = Vec::new();
    put_u32(&mut big, 0x0102_0304, ByteOrder::Big);
    assert_eq!(big, vec![1, 2, 3, 4]);
    put_u64(&mut big, 0x1122_3344_5566_7788, ByteOrder::Big);
    assert_eq!(big[4..], 0x1122_3344_5566_7788u64.to_be_bytes());
}

#[test]
fn integers_survive_the_round_trip() {
    for order in [ByteOrder::Little, ByteOrder::Big] {
        for x in [0u64, 1, 255, 256, 0xffff_ffff, 0x1_0000_0000, u64::MAX] {
            let mut out = vec![9, 9];
            put_u64(&mut out, x, order);
            assert_eq!(get_u64(&out, 2, order), x);
            let mut out = vec![9];
            put_u32(&mut out, x as u32, order);
            assert_eq!(get_u32(&out, 1, order), x as u32);
        }
    }
}

#[test]
fn native_order_is_that_of_the_machine() {
    let expected = if 1u16.to_ne_bytes() == [1, 0] { ByteOrder::Little } else { ByteOrder::Big };
    assert_eq!(native_order(), expected);
}
