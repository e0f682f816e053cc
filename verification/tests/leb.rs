use jump_jet::leb::read;
use jump_jet::leb::signed;
use jump_jet::leb::unsigned;
use jump_jet::leb::Bytes;
use jump_jet::leb::ReadError;
use jump_jet::leb::ReadLEB;

fn b(bytes: &[u8]) -> Bytes {
    Bytes::new(bytes.to_vec())
}

#[test]
fn test_unsigned_decode() {
    assert!(b(&[0]).read_varuint(1).unwrap() == 0);

    assert!(b(&[1]).read_varuint(1).unwrap() == 1);
    assert!(b(&[42]).read_varuint(7).unwrap() == 42);
    assert!(b(&[127]).read_varuint(7).unwrap() == 127);
    assert!(b(&[128, 1]).read_varuint(32).unwrap() == 128);
    assert!(b(&[255, 1]).read_varuint(32).unwrap() == 255);

    assert!(b(&[0]).read_varuint(32).unwrap() == 0);
    assert!(b(&[42]).read_varuint(32).unwrap() == 42);
    assert!(b(&[127]).read_varuint(32).unwrap() == 127);
    assert!(b(&[128, 1]).read_varuint(32).unwrap() == 128);
    assert!(b(&[255, 255, 3]).read_varuint(32).unwrap() == 0xffff);
    assert!(b(&[0xE5, 0x8E, 0x26]).read_varuint(32).unwrap() == 624485);
    assert!(b(&[255, 255, 255, 255, 0b1111]).read_varuint(32).unwrap() == 0xffff_ffff);
    assert!(b(&[255, 255, 255, 255, 255, 255, 255, 255, 255, 1]).read_varuint(64).unwrap() == 0xffff_ffff_ffff_ffff);
}

#[test]
fn test_signed_decode() {
    assert!(b(&[0]).read_varint(1).unwrap() == 0);
    assert!(b(&[1]).read_varint(1).unwrap() == 1);
    assert!(b(&[2]).read_varint(7).unwrap() == 2);
    assert!(b(&[0x7e]).read_varint(7).unwrap() == -2);
    assert!(b(&[0xff, 0]).read_varint(16).unwrap() == 127);
    assert!(b(&[0x81, 0x7f]).read_varint(16).unwrap() == -127);
    assert!(b(&[0x80, 0x7f]).read_varint(16).unwrap() == -128);
}

#[test]
#[should_panic]
fn test_decode_overflow_u1() {
    b(&[2]).read_varuint(1).unwrap();
}

#[test]
#[should_panic]
fn test_decode_overflow_u7() {
    b(&[128]).read_varuint(7).unwrap();
}

#[test]
#[should_panic]
fn test_decode_overflow_u8() {
    b(&[128, 2]).read_varuint(8).unwrap();
}

#[test]
#[should_panic]
fn test_decode_overflow_u16() {
    b(&[128, 128, 4]).read_varuint(16).unwrap();
}

#[test]
#[should_panic]
fn test_decode_overflow_u32() {
    b(&[128, 128, 128, 128, 16]).read_varuint(32).unwrap();
}

#[test]
#[should_panic]
fn test_decode_overflow_u64() {
    b(&[128, 128, 128, 128, 128, 128, 128, 128, 128, 2]).read_varuint(64).unwrap();
}

#[test]
#[should_panic]
fn test_decode_overflow_i8() {
    b(&[128, 2]).read_varint(8).unwrap();
}

#[test]
#[should_panic]
fn test_decode_overflow_i16() {
    b(&[128, 128, 4]).read_varint(16).unwrap();
}

#[test]
#[should_panic]
fn test_decode_overflow_i32() {
    b(&[128, 128, 128, 128, 16]).read_varint(32).unwrap();
}

#[test]
#[should_panic]
fn test_decode_overflow_i64() {
    b(&[128, 128, 128, 128, 128, 128, 128, 128, 128, 2]).read_varint(64).unwrap();
}

#[test]
fn overflow_errors_name_their_cause() {
    assert_eq!(b(&[2]).read_varuint(1), Err(ReadError::WrongValue));
    assert_eq!(b(&[128]).read_varuint(7), Err(ReadError::NumTooBig));
    assert_eq!(b(&[128, 128, 4]).read_varint(16), Err(ReadError::WrongValue));
    assert_eq!(b(&[]).read_varuint(32), Err(ReadError::UnexpectedEof));
    assert_eq!(b(&[128]).read_varuint(32), Err(ReadError::UnexpectedEof));
}

#[test]
fn reads_continue_where_the_last_one_stopped() {
    let mut bytes = b(&[0xE5, 0x8E, 0x26, 0x7e, 5]);
    assert_eq!(bytes.read_varuint(32), Ok(624485));
    assert_eq!(bytes.position(), 3);
    assert_eq!(bytes.read_varint(7), Ok(-2));
    assert_eq!(read(7, &mut bytes), Ok(5));
    assert_eq!(bytes.next(), None);
}

#[test]
fn failed_read_moves_past_the_bytes_read() {
    let mut bytes = b(&[1, 128, 5]);
    assert_eq!(bytes.read_varuint(7), Ok(1));
    assert_eq!(bytes.read_varuint(7), Err(ReadError::NumTooBig));
    assert_eq!(bytes.position(), 2);
    let mut bytes = b(&[0x80]);
    assert_eq!(bytes.read_varuint(7), Err(ReadError::NumTooBig));
    assert_eq!(bytes.position(), 1);
    let mut bytes = b(&[0x80, 0x01]);
    assert_eq!(bytes.read_varuint(7), Err(ReadError::NumTooBig));
    assert_eq!(bytes.position(), 1);
    let mut bytes = b(&[0x80, 0x80, 0x04, 9]);
    assert_eq!(bytes.read_varint(16), Err(ReadError::WrongValue));
    assert_eq!(bytes.position(), 3);
    let mut bytes = b(&[0x80, 0x80]);
    assert_eq!(read(32, &mut bytes), Err(ReadError::UnexpectedEof));
    assert_eq!(bytes.position(), 2);
    let mut bytes = b(&[7]);
    assert_eq!(bytes.read_varuint(0), Err(ReadError::NumTooBig));
    assert_eq!(bytes.position(), 0);
    let mut bytes = b(&[0x80, 0x80]);
    assert_eq!(unsigned(&mut bytes), Err(ReadError::UnexpectedEof));
    assert_eq!(bytes.position(), 2);
}

#[test]
fn budgets_beyond_64_bits() {
    assert_eq!(b(&[0x01]).read_varuint(100), Ok(1));
    assert_eq!(read(127, &mut b(&[0xE5, 0x8E, 0x26])), Ok(624485));
    // a tenth byte keeps only its lowest payload bit
    assert_eq!(b(&[255, 255, 255, 255, 255, 255, 255, 255, 255, 0x7f]).read_varuint(70), Ok(u64::MAX));
    assert_eq!(b(&[128, 128, 128, 128, 128, 128, 128, 128, 128, 2]).read_varuint(65), Ok(0));
    assert_eq!(b(&[128, 128, 128, 128, 128, 128, 128, 128, 128, 128]).read_varuint(100), Err(ReadError::UnexpectedEof));
    assert_eq!(b(&[0x7e]).read_varint(100), Ok(-2));
    assert_eq!(b(&[255, 255, 255, 255, 255, 255, 255, 255, 255, 0x3f]).read_varint(70), Ok(-1));
}

#[test]
fn unbounded_reads() {
    assert_eq!(unsigned(&mut b(&[0xE5, 0x8E, 0x26])), Ok(624485));
    assert_eq!(unsigned(&mut b(&[255, 255, 255, 255, 255, 255, 255, 255, 255, 1])), Ok(u64::MAX));
    assert_eq!(unsigned(&mut b(&[255, 255, 255, 255, 255, 255, 255, 255, 255, 3])), Ok(u64::MAX));
    assert_eq!(unsigned(&mut b(&[128])), Err(ReadError::UnexpectedEof));
    assert_eq!(signed(&mut b(&[0x7e])), Ok(126));
    assert_eq!(signed(&mut b(&[255, 255, 255, 255, 255, 255, 255, 255, 255, 1])), Ok(-1));
}

#[test]
fn encoding_round_trip_examples() {
    // 624485 in its minimal encoding, followed by unrelated bytes.
    assert_eq!(b(&[0xE5, 0x8E, 0x26, 0xff]).read_varuint(32), Ok(624485));
    assert_eq!(b(&[0x00, 0x01]).read_varuint(7), Ok(0));
    assert_eq!(b(&[0x80, 0x01, 0x80]).read_varuint(32), Ok(128));
}

#[test]
fn signed_and_unsigned_reads_of_the_same_bytes() {
    let mut a = b(&[9, 0x80, 0x7f]);
    assert_eq!(a.read_varuint(7), Ok(9));
    let mut c = b(&[0x80, 0x7f]);
    assert_eq!(a.read_varint(16), Ok(-128));
    assert_eq!(c.read_varuint(16), Ok(0x3f80));
    assert_eq!(a.position() - 1, c.position());
    assert_eq!(signed(&mut b(&[0x7f])), Ok(127));
    assert_eq!(unsigned(&mut b(&[0x7f])), Ok(127));
    let mut a = b(&[1, 0x80]);
    a.next();
    let mut c = b(&[0x80]);
    assert_eq!(a.read_varint(7), Err(ReadError::NumTooBig));
    assert_eq!(c.read_varuint(7), Err(ReadError::NumTooBig));
    assert_eq!(a.position() - 1, c.position());
}
