use std::convert::Infallible;

use varint::{
    decode_bits, decode_slice, encode_bits, serialize, DecodeVarInt, DecodeVarIntError,
    EncodeVarInt, NonMaxI32VarInt, VarInt,
};

fn verify_encode_var_int<T: EncodeVarInt>(value: T, expected: &[u8]) {
    let mut encoded = Vec::new();
    value.encode_var_int(|bytes| {
        encoded.extend_from_slice(bytes);
    });
    assert_eq!(encoded, expected);
}

fn verify_decode_var_int<T: DecodeVarInt + PartialEq + std::fmt::Debug>(expected: T, bytes: &[u8]) {
    let mut i = 0;
    let result: Result<(T, usize), DecodeVarIntError<Infallible>> = T::decode_var_int(|_| {
        if i < bytes.len() {
            let byte = bytes[i];
            i += 1;
            Ok(Some(byte))
        } else {
            Ok(None)
        }
    });
    assert_eq!(result.unwrap().0, expected);
}

#[test]
fn test_encode_var_int() {
    verify_encode_var_int(0, &[0x00]);
    verify_encode_var_int(1, &[0x01]);
    verify_encode_var_int(2, &[0x02]);
    verify_encode_var_int(127, &[0x7f]);
    verify_encode_var_int(128, &[0x80, 0x01]);
    verify_encode_var_int(255, &[0xff, 0x01]);
    verify_encode_var_int(25565, &[0xdd, 0xc7, 0x01]);
    verify_encode_var_int(2097151, &[0xff, 0xff, 0x7f]);
    verify_encode_var_int(2147483647, &[0xff, 0xff, 0xff, 0xff, 0x07]);
    verify_encode_var_int(-1, &[0xff, 0xff, 0xff, 0xff, 0x0f]);
    verify_encode_var_int(-2147483648, &[0x80, 0x80, 0x80, 0x80, 0x08]);
}

#[test]
fn test_decode_var_int() {
    verify_decode_var_int(0, &[0x00]);
    verify_decode_var_int(1, &[0x01]);
    verify_decode_var_int(2, &[0x02]);
    verify_decode_var_int(127, &[0x7f]);
    verify_decode_var_int(128, &[0x80, 0x01]);
    verify_decode_var_int(255, &[0xff, 0x01]);
    verify_decode_var_int(25565, &[0xdd, 0xc7, 0x01]);
    verify_decode_var_int(2097151, &[0xff, 0xff, 0x7f]);
    verify_decode_var_int(2147483647, &[0xff, 0xff, 0xff, 0xff, 0x07]);
    verify_decode_var_int(-1, &[0xff, 0xff, 0xff, 0xff, 0x0f]);
    verify_decode_var_int(-2147483648, &[0x80, 0x80, 0x80, 0x80, 0x08]);
}

const VECTORS: [(i32, &[u8]); 10] = [
    (0, &[0x00]),
    (1, &[0x01]),
    (127, &[0x7f]),
    (128, &[0x80, 0x01]),
    (255, &[0xff, 0x01]),
    (25565, &[0xdd, 0xc7, 0x01]),
    (2097151, &[0xff, 0xff, 0x7f]),
    (2147483647, &[0xff, 0xff, 0xff, 0xff, 0x07]),
    (-1, &[0xff, 0xff, 0xff, 0xff, 0x0f]),
    (-2147483648, &[0x80, 0x80, 0x80, 0x80, 0x08]),
];

#[test]
fn literal_vectors_encode_and_decode_back() {
    for (value, bytes) in VECTORS {
        assert_eq!(encode_bits(value as u32), bytes.to_vec());
        assert_eq!(serialize(&VarInt(value)), bytes.to_vec());
        let decoded = decode_slice::<Infallible>(bytes).unwrap();
        assert_eq!(decoded, (value as u32, bytes.len()));
        let (v, n) = VarInt::decode_var_int(|i| Ok::<_, Infallible>(bytes.get(i).copied())).unwrap();
        assert_eq!((v, n), (VarInt(value), bytes.len()));
    }
}

#[test]
fn round_trip_over_many_patterns() {
    let mut v: u32 = 0;
    loop {
        let bytes = encode_bits(v);
        assert_eq!(decode_slice::<Infallible>(&bytes).unwrap(), (v, bytes.len()));
        let (w, n) = u32::decode_var_int(|i| Ok::<_, Infallible>(bytes.get(i).copied())).unwrap();
        assert_eq!((w, n), (v, bytes.len()));
        match v.checked_add(v / 3 + 1) {
            Some(next) => v = next,
            None => break,
        }
    }
    for v in [u32::MAX, u32::MAX - 1, 0x8000_0000, 0x0fff_ffff, 0x1000_0000] {
        let bytes = encode_bits(v);
        assert_eq!(decode_slice::<Infallible>(&bytes).unwrap(), (v, bytes.len()));
    }
}

#[test]
fn length_bands_at_their_edges() {
    let cases: [(u32, usize); 11] = [
        (0, 1),
        (127, 1),
        (128, 2),
        (16383, 2),
        (16384, 3),
        (2097151, 3),
        (2097152, 4),
        (268435455, 4),
        (268435456, 5),
        (0x8000_0000, 5),
        (u32::MAX, 5),
    ];
    for (v, len) in cases {
        assert_eq!(encode_bits(v).len(), len);
    }
}

#[test]
fn highest_nonzero_group_sets_the_length() {
    assert_eq!(encode_bits(1 << 7).len(), 2);
    assert_eq!(encode_bits(1 << 14).len(), 3);
    assert_eq!(encode_bits(1 << 21).len(), 4);
    assert_eq!(encode_bits(1 << 28).len(), 5);
    assert_eq!(encode_bits(1 << 31).len(), 5);
}

#[test]
fn five_continued_bytes_are_too_large() {
    assert_eq!(
        decode_slice::<Infallible>(&[0x80, 0x80, 0x80, 0x80, 0x80]),
        Err(DecodeVarIntError::TooLarge)
    );
    assert_eq!(
        decode_slice::<Infallible>(&[0xff, 0xff, 0xff, 0xff, 0xff, 0x01]),
        Err(DecodeVarIntError::TooLarge)
    );
    assert_eq!(
        i32::decode_var_int(|_| Ok::<_, Infallible>(Some(0xc3))),
        Err(DecodeVarIntError::TooLarge)
    );
}

#[test]
fn truncated_input_is_not_enough() {
    assert_eq!(
        decode_slice::<Infallible>(&[]),
        Err(DecodeVarIntError::NotEnoughBytesInTheBuffer)
    );
    assert_eq!(
        decode_slice::<Infallible>(&[0x80, 0xff]),
        Err(DecodeVarIntError::NotEnoughBytesInTheBuffer)
    );
}

#[test]
fn no_read_after_the_source_runs_out() {
    let bytes = [0x80u8, 0x80];
    let mut asked = Vec::new();
    let r = decode_bits(|i| {
        asked.push(i);
        Ok::<_, Infallible>(bytes.get(i).copied())
    });
    assert_eq!(r, Err(DecodeVarIntError::NotEnoughBytesInTheBuffer));
    assert_eq!(asked, vec![0, 1, 2]);
}

#[test]
fn reads_stop_at_the_first_final_byte() {
    let bytes = [0xdd, 0xc7, 0x01, 0x7f, 0x7f];
    let mut asked = Vec::new();
    let r = decode_bits(|i| {
        asked.push(i);
        Ok::<_, Infallible>(bytes.get(i).copied())
    });
    assert_eq!(r, Ok((25565, 3)));
    assert_eq!(asked, vec![0, 1, 2]);
    assert_eq!(decode_slice::<Infallible>(&[0x01, 0xff]), Ok((1, 1)));
}

#[test]
fn source_errors_pass_through() {
    let r = decode_bits(|i| if i == 0 { Ok(Some(0x80)) } else { Err("closed") });
    assert_eq!(r, Err(DecodeVarIntError::Custom("closed")));
    let r = VarInt::decode_var_int(|_| Err::<Option<u8>, u8>(7));
    assert_eq!(r, Err(DecodeVarIntError::Custom(7)));
}

#[test]
fn varint_conversions_truncate_to_32_bits() {
    assert_eq!(VarInt::new(-5).get(), -5);
    assert_eq!(VarInt::from(-5i32), VarInt(-5));
    assert_eq!(VarInt::from(u32::MAX), VarInt(-1));
    assert_eq!(VarInt::from(0x1_0000_0005i64), VarInt(5));
    assert_eq!(VarInt::from(0xffff_ffff_8000_0000u64), VarInt(i32::MIN));
    assert_eq!(i32::from(VarInt(42)), 42);
}

#[test]
fn non_max_excludes_the_maximum() {
    assert!(NonMaxI32VarInt::new(i32::MAX).is_none());
    let n = NonMaxI32VarInt::new(i32::MAX - 1).unwrap();
    assert_eq!(n.get(), i32::MAX - 1);
    assert_eq!(i32::from(n), i32::MAX - 1);
    assert_eq!(NonMaxI32VarInt::default().get(), 0);
    let m = NonMaxI32VarInt::new(-1).unwrap();
    verify_encode_var_int(m, &[0xff, 0xff, 0xff, 0xff, 0x0f]);
    assert_eq!(serialize(&n), vec![0xfe, 0xff, 0xff, 0xff, 0x07]);
}

#[test]
fn encode_hands_the_bytes_to_the_sink_once() {
    let mut calls = 0;
    let len = 300u32.encode_var_int(|bytes| {
        calls += 1;
        assert_eq!(bytes, &[0xac, 0x02]);
        bytes.len()
    });
    assert_eq!((calls, len), (1, 2));
}

#[test]
fn other_integer_widths_encode_their_low_32_bits() {
    verify_encode_var_int(300u64, &[0xac, 0x02]);
    verify_encode_var_int(0x1_0000_0001u64, &[0x01]);
    verify_encode_var_int(-1i8, &[0xff, 0xff, 0xff, 0xff, 0x0f]);
    verify_encode_var_int(-1i64, &[0xff, 0xff, 0xff, 0xff, 0x0f]);
    verify_encode_var_int(200u8, &[0xc8, 0x01]);
    verify_encode_var_int(65535u16, &[0xff, 0xff, 0x03]);
    verify_encode_var_int(-2i16, &[0xfe, 0xff, 0xff, 0xff, 0x0f]);
    verify_decode_var_int(-1i64, &[0xff, 0xff, 0xff, 0xff, 0x0f]);
    verify_decode_var_int(2147483647i64, &[0xff, 0xff, 0xff, 0xff, 0x07]);
    verify_decode_var_int(4294967295u32, &[0xff, 0xff, 0xff, 0xff, 0x0f]);
}

#[test]
fn varint_from_every_integer_width() {
    assert_eq!(VarInt::from(25565u16), VarInt(25565));
    assert_eq!(VarInt::from(-3i16), VarInt(-3));
    assert_eq!(VarInt::from(255u8), VarInt(255));
    assert_eq!(VarInt::from(-128i8), VarInt(-128));
    assert_eq!(VarInt::from(2147483648u32), VarInt(-2147483648));
    assert_eq!(VarInt::from(4294967296i64), VarInt(0));
    assert_eq!(VarInt::from(-1i64), VarInt(-1));
    assert_eq!(VarInt::from(0x1_0000_0007usize as u64 as usize), VarInt::from(0x1_0000_0007u64));
    assert_eq!(VarInt::from(-9isize), VarInt(-9));
}

#[test]
fn non_max_from_narrow_integers_and_decode() {
    assert_eq!(NonMaxI32VarInt::from(65535u16).get(), 65535);
    assert_eq!(NonMaxI32VarInt::from(-7i8).get(), -7);
    assert_eq!(NonMaxI32VarInt::from(200u8).get(), 200);
    assert_eq!(NonMaxI32VarInt::from(i16::MIN).get(), -32768);
    let max = [0xffu8, 0xff, 0xff, 0xff, 0x07];
    let r = NonMaxI32VarInt::decode_var_int(|i| Ok::<_, Infallible>(max.get(i).copied()));
    assert_eq!(r, Ok((None, 5)));
    let below = [0xfeu8, 0xff, 0xff, 0xff, 0x07];
    let (v, n) = NonMaxI32VarInt::decode_var_int(|i| Ok::<_, Infallible>(below.get(i).copied())).unwrap();
    assert_eq!((v.map(|x| x.get()), n), (Some(i32::MAX - 1), 5));
    let r = NonMaxI32VarInt::decode_var_int(|_| Ok::<_, Infallible>(None));
    assert_eq!(r, Err(DecodeVarIntError::NotEnoughBytesInTheBuffer));
}

#[test]
fn pointer_and_wide_widths_encode_their_low_32_bits() {
    verify_encode_var_int(300usize, &[0xac, 0x02]);
    verify_encode_var_int(-1isize, &[0xff, 0xff, 0xff, 0xff, 0x0f]);
    verify_encode_var_int(0x1_0000_0080u128, &[0x80, 0x01]);
    verify_encode_var_int(-2i128, &[0xfe, 0xff, 0xff, 0xff, 0x0f]);
    verify_decode_var_int(-2147483648i128, &[0x80, 0x80, 0x80, 0x80, 0x08]);
}

#[test]
fn error_stops_the_reads() {
    let mut asked = Vec::new();
    let r = i32::decode_var_int(|i| {
        asked.push(i);
        if i < 2 { Ok(Some(0x81)) } else { Err('x') }
    });
    assert_eq!(r, Err(DecodeVarIntError::Custom('x')));
    assert_eq!(asked, vec![0, 1, 2]);
}

#[test]
fn non_max_checked_conversions_from_wide_integers() {
    assert!(NonMaxI32VarInt::from_i64(i32::MAX as i64).is_none());
    assert!(NonMaxI32VarInt::from_u64(0x1_7fff_ffff).is_none());
    assert!(NonMaxI32VarInt::from_u32(0x7fff_ffff).is_none());
    assert_eq!(NonMaxI32VarInt::from_u32(u32::MAX).map(|n| n.get()), Some(-1));
    assert_eq!(NonMaxI32VarInt::from_i64(-5).map(|n| n.get()), Some(-5));
    assert_eq!(NonMaxI32VarInt::from_i64(0x1_0000_0009).map(|n| n.get()), Some(9));
    assert_eq!(NonMaxI32VarInt::from_usize(42).map(|n| n.get()), Some(42));
    assert_eq!(NonMaxI32VarInt::from_isize(-42).map(|n| n.get()), Some(-42));
    assert_eq!(NonMaxI32VarInt::from_u128(1 << 64 | 3).map(|n| n.get()), Some(3));
    assert!(NonMaxI32VarInt::from_i128(i32::MAX as i128).is_none());
    assert_eq!(NonMaxI32VarInt::from_i128(-1).map(|n| n.get()), Some(-1));
}

#[test]
fn varint_from_128_bit_integers_truncates() {
    assert_eq!(VarInt::from(1u128 << 100 | 25565), VarInt(25565));
    assert_eq!(VarInt::from(-1i128), VarInt(-1));
    assert_eq!(VarInt::from(0x8000_0000i128), VarInt(i32::MIN));
}

#[test]
fn a_longer_sequence_may_decode_to_a_small_value() {
    assert_eq!(decode_slice::<Infallible>(&[0x81, 0x00]), Ok((1, 2)));
    assert_eq!(encode_bits(1).len(), 1);
}
