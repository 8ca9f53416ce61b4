use bytes::{BufMut, Bytes, BytesMut};
use safer_bytes::error::{ExtraneousBytes, Truncated};
use safer_bytes::{RawBuf, SafeBuf};

#[test]
fn round_trip_unsigned_be() {
    let mut m = BytesMut::new();
    m.put_u8(0xAB);
    m.put_u16(0xBEEF);
    m.put_u32(0xDEADBEEF);
    m.put_u64(0x0123_4567_89AB_CDEF);
    m.put_u128(0x0011_2233_4455_6677_8899_AABB_CCDD_EEFF);
    let mut b = m.freeze();
    assert_eq!(b.try_get_u8(), Ok(0xAB));
    assert_eq!(b.try_get_u16(), Ok(0xBEEF));
    assert_eq!(b.try_get_u32(), Ok(0xDEADBEEF));
    assert_eq!(b.try_get_u64(), Ok(0x0123_4567_89AB_CDEF));
    assert_eq!(b.try_get_u128(), Ok(0x0011_2233_4455_6677_8899_AABB_CCDD_EEFF));
    assert_eq!(b.should_be_exhausted(), Ok(()));
}

#[test]
fn round_trip_unsigned_le() {
    let mut m = BytesMut::new();
    m.put_u16_le(0xBEEF);
    m.put_u32_le(0xDEADBEEF);
    m.put_u64_le(0x0123_4567_89AB_CDEF);
    m.put_u128_le(0x0011_2233_4455_6677_8899_AABB_CCDD_EEFF);
    let mut b = m.freeze();
    assert_eq!(b.try_get_u16_le(), Ok(0xBEEF));
    assert_eq!(b.try_get_u32_le(), Ok(0xDEADBEEF));
    assert_eq!(b.try_get_u64_le(), Ok(0x0123_4567_89AB_CDEF));
    assert_eq!(
        b.try_get_u128_le(),
        Ok(0x0011_2233_4455_6677_8899_AABB_CCDD_EEFF)
    );
    assert_eq!(b.should_be_exhausted(), Ok(()));
}

#[test]
fn round_trip_signed_be() {
    let mut m = BytesMut::new();
    m.put_i8(-5);
    m.put_i16(i16::MIN);
    m.put_i32(-1);
    m.put_i64(i64::MIN);
    m.put_i128(-42);
    let mut b = m.freeze();
    assert_eq!(b.try_get_i8(), Ok(-5));
    assert_eq!(b.try_get_i16(), Ok(i16::MIN));
    assert_eq!(b.try_get_i32(), Ok(-1));
    assert_eq!(b.try_get_i64(), Ok(i64::MIN));
    assert_eq!(b.try_get_i128(), Ok(-42));
    assert_eq!(b.should_be_exhausted(), Ok(()));
}

#[test]
fn round_trip_signed_le() {
    let mut m = BytesMut::new();
    m.put_i16_le(-2);
    m.put_i32_le(i32::MIN);
    m.put_i64_le(-1);
    m.put_i128_le(i128::MIN);
    let mut b = m.freeze();
    assert_eq!(b.try_get_i16_le(), Ok(-2));
    assert_eq!(b.try_get_i32_le(), Ok(i32::MIN));
    assert_eq!(b.try_get_i64_le(), Ok(-1));
    assert_eq!(b.try_get_i128_le(), Ok(i128::MIN));
    assert_eq!(b.should_be_exhausted(), Ok(()));
}

#[test]
fn byte_order_exact_values() {
    let mut b = Bytes::from_static(&[0x12, 0x34, 0x56, 0x78]);
    assert_eq!(b.try_get_u32(), Ok(0x12345678));
    let mut b = Bytes::from_static(&[0x12, 0x34, 0x56, 0x78]);
    assert_eq!(b.try_get_u32_le(), Ok(0x78563412));
    let mut b = Bytes::from_static(&[0x80, 0x00]);
    assert_eq!(b.try_get_i16(), Ok(-32768));
    let mut b = Bytes::from_static(&[0x00, 0x80]);
    assert_eq!(b.try_get_i16_le(), Ok(-32768));
    let mut b = Bytes::from_static(&[0xFF]);
    assert_eq!(b.try_get_u8(), Ok(255));
    let mut b = Bytes::from_static(&[0xFF]);
    assert_eq!(b.try_get_i8(), Ok(-1));
}

#[test]
fn generic_width_reads() {
    let mut b = Bytes::from_static(&[1, 2, 3]);
    assert_eq!(b.try_get_be::<0>(), Ok(0));
    assert_eq!(b.remaining(), 3);
    assert_eq!(b.try_get_be::<3>(), Ok(0x010203));
    assert_eq!(b.remaining(), 0);
    let mut b = Bytes::from_static(&[1, 2, 3]);
    assert_eq!(b.try_get_le::<3>(), Ok(0x030201));
    let mut b = Bytes::from_static(&[1, 2]);
    assert_eq!(b.try_get_be::<3>(), Err(Truncated));
    assert_eq!(b.remaining(), 2);
}

#[test]
fn boundary_exact_width_succeeds() {
    let mut b = Bytes::from_static(&[0x00, 0x00, 0x01, 0x00]);
    assert_eq!(b.try_get_u32(), Ok(256));
    assert_eq!(b.remaining(), 0);
}

#[test]
fn boundary_one_short_fails_unchanged() {
    let mut b = Bytes::from_static(&[0x00, 0x00, 0x01]);
    assert_eq!(b.try_get_u32(), Err(Truncated));
    assert_eq!(b.remaining(), 3);
    assert_eq!(b.try_get_u32_le(), Err(Truncated));
    assert_eq!(b.remaining(), 3);
}

#[test]
fn no_partial_advance_on_failure() {
    let mut b = Bytes::from_static(&[0x01, 0x02]);
    assert_eq!(b.try_get_u64(), Err(Truncated));
    assert_eq!(b.remaining(), 2);
    assert_eq!(b.try_get_i64_le(), Err(Truncated));
    assert_eq!(b.remaining(), 2);
    assert_eq!(b.try_peek_const::<3>(), Err(Truncated));
    assert_eq!(b.remaining(), 2);
    assert_eq!(b.try_take(5), Err(Truncated));
    assert_eq!(b.remaining(), 2);
    // the bytes are still all there
    assert_eq!(b.try_get_u16(), Ok(0x0102));
    assert_eq!(b.should_be_exhausted(), Ok(()));
}

#[test]
fn peek_vs_take_equivalence_dynamic() {
    let mut peeker = Bytes::from_static(&[9, 8, 7, 6, 5]);
    let mut taker = Bytes::from_static(&[9, 8, 7, 6, 5]);
    let peeked = peeker.try_peek(4).unwrap();
    assert_eq!(peeker.remaining(), 5);
    peeker.advance(4);
    let taken = taker.try_take(4).unwrap();
    assert_eq!(&peeked[..], &taken[..]);
    assert_eq!(peeker.remaining(), taker.remaining());
    assert_eq!(peeker.try_get_u8(), taker.try_get_u8());
}

#[test]
fn peek_vs_take_equivalence_const() {
    let mut peeker = Bytes::from_static(&[9, 8, 7, 6, 5]);
    let mut taker = Bytes::from_static(&[9, 8, 7, 6, 5]);
    let peeked = peeker.try_peek_const::<3>().unwrap();
    assert_eq!(peeker.remaining(), 5);
    peeker.advance(3);
    let taken = taker.try_take_const::<3>().unwrap();
    assert_eq!(peeked, taken);
    assert_eq!(peeked, [9, 8, 7]);
    assert_eq!(peeker.remaining(), taker.remaining());
}

#[test]
fn peek_does_not_advance() {
    let mut b = Bytes::from_static(&[1, 2, 3]);
    let first = b.try_peek(2).unwrap();
    let second = b.try_peek(2).unwrap();
    assert_eq!(&first[..], &[1, 2]);
    assert_eq!(&first[..], &second[..]);
    assert_eq!(b.remaining(), 3);
    let arr = b.try_peek_const::<2>().unwrap();
    assert_eq!(arr, [1, 2]);
    assert_eq!(b.remaining(), 3);
}

#[test]
fn take_consumes_exactly_len() {
    let mut b = Bytes::from_static(&[1, 2, 3, 4, 5, 6, 7]);
    let taken = b.try_take(3).unwrap();
    assert_eq!(taken.len(), 3);
    assert_eq!(b.remaining(), 4);
    let taken = b.try_take_const::<2>().unwrap();
    assert_eq!(taken.len(), 2);
    assert_eq!(b.remaining(), 2);
    let taken = b.try_take(0).unwrap();
    assert_eq!(taken.len(), 0);
    assert_eq!(b.remaining(), 2);
}

#[test]
fn ten_byte_scenario() {
    let mut b = Bytes::from_static(&[0, 1, 2, 3, 4, 5, 6, 7, 8, 9]);
    let first = b.try_take(4).unwrap();
    assert_eq!(&first[..], &[0, 1, 2, 3]);
    let second = b.try_take(4).unwrap();
    assert_eq!(&second[..], &[4, 5, 6, 7]);
    assert_eq!(b.remaining(), 2);
    assert_eq!(b.try_take(4), Err(Truncated));
    assert_eq!(b.remaining(), 2);
}

#[test]
fn empty_cursor_scenario() {
    let mut b = Bytes::new();
    assert_eq!(b.try_get_u8(), Err(Truncated));
    assert_eq!(b.should_be_exhausted(), Ok(()));
}

#[test]
fn checked_reads_on_bytes_mut() {
    let mut buffer = BytesMut::new();
    buffer.extend_from_slice(&[0, 1, 2, 3, 4, 5, 6, 7, 8, 9]);
    let taken = buffer.try_take(6).unwrap();
    assert_eq!(&taken[..], &[0, 1, 2, 3, 4, 5]);
    assert_eq!(buffer.remaining(), 4);
    let peeked = buffer.try_peek(2).unwrap();
    assert_eq!(&peeked[..], &[6, 7]);
    assert_eq!(buffer.remaining(), 4);
    let arr = buffer.try_peek_const::<2>().unwrap();
    assert_eq!(arr, [6, 7]);
    assert_eq!(buffer.try_get_u32(), Ok(0x0607_0809));
    assert_eq!(buffer.should_be_exhausted(), Ok(()));
}

#[test]
fn bytes_mut_failure_leaves_cursor_unchanged() {
    let mut buffer = BytesMut::new();
    buffer.extend_from_slice(&[1, 2]);
    assert_eq!(buffer.try_get_u32(), Err(Truncated));
    assert_eq!(buffer.remaining(), 2);
    assert_eq!(buffer.try_get_u16(), Ok(0x0102));
    assert_eq!(buffer.should_be_exhausted(), Ok(()));
}

#[test]
fn exhaustion_check_correctness() {
    let mut b = Bytes::from_static(&[7]);
    assert_eq!(b.should_be_exhausted(), Err(ExtraneousBytes));
    assert_eq!(b.remaining(), 1);
    assert_eq!(b.try_get_u8(), Ok(7));
    assert_eq!(b.should_be_exhausted(), Ok(()));
}
