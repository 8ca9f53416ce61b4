use bytes::Bytes;
use safer_bytes::error::{ExtraneousBytes, Truncated};
use safer_bytes::{Error, FromBuf, RawBuf, SafeBuf};

#[test]
fn error_conversions() {
    assert_eq!(Error::from(Truncated), Error::Truncated(Truncated));
    assert_eq!(
        Error::from(ExtraneousBytes),
        Error::ExtraneousBytes(ExtraneousBytes)
    );
    assert_ne!(
        Error::Truncated(Truncated),
        Error::ExtraneousBytes(ExtraneousBytes)
    );
    // errors are plain copyable values
    let e = Error::from(Truncated);
    let copy = e;
    assert_eq!(e, copy);
}

#[derive(Debug, PartialEq, Eq)]
struct Point {
    x: u16,
    y: i8,
}

impl FromBuf for Point {
    fn from_buf<B: RawBuf>(buf: &mut B) -> safer_bytes::Result<Self> {
        let x = buf.try_get_u16()?;
        let y = buf.try_get_i8()?;
        Ok(Point { x, y })
    }
}

#[test]
fn extract_reads_a_whole_object() {
    let mut b = Bytes::from_static(&[0x01, 0x02, 0xFF]);
    let p: Point = b.extract().unwrap();
    assert_eq!(p, Point { x: 0x0102, y: -1 });
    assert_eq!(b.should_be_exhausted(), Ok(()));
}

#[test]
fn extract_propagates_truncation() {
    let mut b = Bytes::from_static(&[0x01]);
    let r: safer_bytes::Result<Point> = b.extract();
    assert_eq!(r, Err(Error::Truncated(Truncated)));
    // the failed read consumed nothing
    assert_eq!(b.remaining(), 1);
}

#[test]
fn extract_flags_trailing_bytes() {
    let mut b = Bytes::from_static(&[0x01, 0x02, 0xFF, 0xAA]);
    let p: Point = b.extract().unwrap();
    assert_eq!(p, Point { x: 0x0102, y: -1 });
    assert_eq!(
        b.should_be_exhausted(),
        Err(ExtraneousBytes)
    );
    assert_eq!(b.remaining(), 1);
}
