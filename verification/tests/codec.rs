use netclient::codec::inflate;
use netclient::{Codec, Compression, DecodeFault, MsgType};

/// A size-prefixed block that holds `literals` and nothing else, under a
/// prefix that declares `declared` bytes.
fn literal_block(declared: u32, literals: &[u8]) -> Vec<u8> {
    assert!(literals.len() < 15);
    let mut block = declared.to_le_bytes().to_vec();
    block.push((literals.len() as u8) << 4);
    block.extend_from_slice(literals);
    block
}

#[test]
fn uncompressed_frame_is_payload_and_zero() {
    let frame = Codec::Lz4.pack(&[7, 8, 9], Compression::Uncompressed);
    assert_eq!(frame, vec![7, 8, 9, 0]);
    assert_eq!(Codec::Lz4.unpack(&frame), Ok(vec![7, 8, 9]));
}

#[test]
fn compressed_frame_is_block_and_one() {
    let payload: Vec<u8> = vec![42; 300];
    let frame = Codec::Lz4.pack(&payload, Compression::Compressed);
    assert_eq!(frame.last(), Some(&1));
    assert_eq!(frame[..4], [44, 1, 0, 0]);
    assert!(frame.len() < payload.len());
    assert_eq!(Codec::Lz4.unpack(&frame), Ok(payload));
}

#[test]
fn compressed_frame_is_not_the_payload_itself() {
    let payload: Vec<u8> = (0..=255).collect();
    let frame = Codec::Lz4.pack(&payload, Compression::Compressed);
    assert_ne!(frame[..frame.len() - 1], payload[..]);
    assert_eq!(frame[..4], [0, 1, 0, 0]);
    assert_eq!(Codec::Lz4.unpack(&frame), Ok(payload));
}

#[test]
fn one_unpack_reads_both_kinds_of_frame() {
    let payload = b"the same bytes, framed twice over, framed twice over".to_vec();
    let plain = Codec::Lz4.pack(&payload, Compression::Uncompressed);
    let packed = Codec::Lz4.pack(&payload, Compression::Compressed);
    assert_ne!(plain, packed);
    assert_eq!(Codec::Lz4.unpack(&plain), Ok(payload.clone()));
    assert_eq!(Codec::Lz4.unpack(&packed), Ok(payload));
}

#[test]
fn zero_length_payload_round_trips() {
    for codec in [Codec::Lz4, Codec::Plain] {
        for compression in [Compression::Compressed, Compression::Uncompressed] {
            let frame = codec.pack(&[], compression);
            assert_eq!(codec.unpack(&frame), Ok(Vec::new()));
        }
    }
    assert_eq!(Codec::Lz4.pack(&[], Compression::Uncompressed), vec![0]);
    assert_eq!(Codec::Lz4.pack(&[], Compression::Compressed), vec![0, 0, 0, 0, 0, 1]);
    assert_eq!(Codec::Plain.pack(&[], Compression::Compressed), Vec::<u8>::new());
}

#[test]
fn every_payload_length_round_trips() {
    for n in 0..200usize {
        let payload: Vec<u8> = (0..n).map(|i| (i * 7 % 11) as u8).collect();
        for compression in [Compression::Compressed, Compression::Uncompressed] {
            let frame = Codec::Lz4.pack(&payload, compression);
            assert_eq!(Codec::Lz4.unpack(&frame), Ok(payload.clone()));
        }
    }
}

#[test]
fn typed_values_round_trip() {
    let value: (u32, String, Vec<u16>) = (77, String::from("seventy-seven"), vec![7, 70, 700]);
    for compression in [Compression::Compressed, Compression::Uncompressed] {
        let frame = Codec::Lz4.pack(&bitcode::encode(&value), compression);
        let payload = Codec::Lz4.unpack(&frame).unwrap();
        let back: (u32, String, Vec<u16>) = bitcode::decode(&payload).unwrap();
        assert_eq!(back, value);
    }
}

#[test]
fn value_of_no_bytes_round_trips() {
    assert!(bitcode::encode(&()).is_empty());
    for codec in [Codec::Lz4, Codec::Plain] {
        for compression in [Compression::Compressed, Compression::Uncompressed] {
            let frame = codec.pack(&bitcode::encode(&()), compression);
            let payload = codec.unpack(&frame).unwrap();
            assert_eq!(bitcode::decode::<()>(&payload).ok(), Some(()));
        }
    }
}

#[test]
fn long_payload_round_trips() {
    let payload: Vec<u8> = (0..1_000_000u32).map(|i| (i % 251) as u8).collect();
    let frame = Codec::Lz4.pack(&payload, Compression::Compressed);
    assert_eq!(frame[..4], [0x40, 0x42, 0x0F, 0x00]);
    assert!(frame.len() < payload.len() / 10);
    assert_eq!(Codec::Lz4.unpack(&frame), Ok(payload.clone()));
    let frame = Codec::Lz4.pack(&payload, Compression::Uncompressed);
    assert_eq!(frame.len(), payload.len() + 1);
    assert_eq!(Codec::Lz4.unpack(&frame), Ok(payload));
}

#[test]
fn plain_codec_adds_nothing() {
    assert_eq!(Codec::Plain.pack(&[3, 1, 1], Compression::Compressed), vec![3, 1, 1]);
    assert_eq!(Codec::Plain.pack(&[3, 1, 1], Compression::Uncompressed), vec![3, 1, 1]);
    assert_eq!(Codec::Plain.unpack(&[3, 1, 1]), Ok(vec![3, 1, 1]));
    assert_eq!(Codec::Plain.unpack(&[3, 1, 9]), Ok(vec![3, 1, 9]));
}

#[test]
fn empty_frame_is_a_fault() {
    assert_eq!(Codec::Lz4.unpack(&[]), Err(DecodeFault::Empty));
}

#[test]
fn marker_other_than_zero_or_one_is_a_fault() {
    assert_eq!(Codec::Lz4.unpack(&[1, 2, 3, 7]), Err(DecodeFault::UnknownMarker(7)));
    assert_eq!(Codec::Lz4.unpack(&[2]), Err(DecodeFault::UnknownMarker(2)));
    assert_eq!(Codec::Lz4.unpack(&[255]), Err(DecodeFault::UnknownMarker(255)));
}

#[test]
fn damaged_block_is_a_fault() {
    assert_eq!(Codec::Lz4.unpack(&[1]), Err(DecodeFault::Corrupt));
    assert_eq!(Codec::Lz4.unpack(&[9, 9, 9, 1]), Err(DecodeFault::Corrupt));
    assert_eq!(Codec::Lz4.unpack(&[4, 0, 0, 0, 0xF0, 1]), Err(DecodeFault::Corrupt));
    assert_eq!(Codec::Lz4.unpack(&[4, 0, 0, 0, 0x40, 1, 2, 1]), Err(DecodeFault::Corrupt));
}

#[test]
fn block_shorter_than_declared_is_a_fault() {
    let mut frame = literal_block(5, &[1, 2, 3, 4]);
    frame.push(1);
    assert_eq!(Codec::Lz4.unpack(&frame), Err(DecodeFault::SizeMismatch));
    assert_eq!(inflate(&literal_block(9, &[])), Err(DecodeFault::SizeMismatch));
}

#[test]
fn block_longer_than_declared_is_a_fault() {
    let mut frame = literal_block(3, &[1, 2, 3, 4]);
    frame.push(1);
    assert_eq!(Codec::Lz4.unpack(&frame), Err(DecodeFault::Corrupt));
}

#[test]
fn block_as_long_as_declared_is_read() {
    let block = literal_block(4, &[1, 2, 3, 4]);
    assert_eq!(inflate(&block), Ok(vec![1, 2, 3, 4]));
    let mut frame = block;
    frame.push(1);
    assert_eq!(Codec::Lz4.unpack(&frame), Ok(vec![1, 2, 3, 4]));
}

#[test]
fn declared_size_is_little_endian() {
    let payload: Vec<u8> = vec![0; 0x01_02_03];
    let frame = Codec::Lz4.pack(&payload, Compression::Compressed);
    assert_eq!(frame[..4], [0x03, 0x02, 0x01, 0x00]);
    assert_eq!(Codec::Lz4.unpack(&frame), Ok(payload));
}

#[test]
fn record_splits_and_joins_a_frame() {
    match MsgType::parse(&[5, 6, 0]) {
        Ok(MsgType::Uncompressed(body)) => assert_eq!(body, vec![5, 6]),
        _ => panic!("expected an uncompressed record"),
    }
    match MsgType::parse(&[5, 6, 1]) {
        Ok(MsgType::Compressed(body)) => assert_eq!(body, vec![5, 6]),
        _ => panic!("expected a compressed record"),
    }
    assert!(matches!(MsgType::parse(&[]), Err(DecodeFault::Empty)));
    assert!(matches!(MsgType::parse(&[5, 6, 2]), Err(DecodeFault::UnknownMarker(2))));
    assert_eq!(MsgType::Uncompressed(vec![5, 6]).into_frame(), vec![5, 6, 0]);
    assert_eq!(MsgType::Compressed(vec![5, 6]).into_frame(), vec![5, 6, 1]);
    assert_eq!(MsgType::Uncompressed(vec![5, 6]).into_payload(), Ok(vec![5, 6]));
    assert_eq!(MsgType::Compressed(literal_block(2, &[5, 6])).into_payload(), Ok(vec![5, 6]));
    assert_eq!(MsgType::Compressed(vec![5, 6]).into_payload(), Err(DecodeFault::Corrupt));
}

#[test]
fn record_compresses_on_request_only() {
    match MsgType::wrap(&[1, 1, 1, 1], Compression::Uncompressed) {
        MsgType::Uncompressed(body) => assert_eq!(body, vec![1, 1, 1, 1]),
        MsgType::Compressed(_) => panic!("expected an uncompressed record"),
    }
    match MsgType::wrap(&[1, 1, 1, 1], Compression::Compressed) {
        MsgType::Compressed(block) => assert_eq!(inflate(&block), Ok(vec![1, 1, 1, 1])),
        MsgType::Uncompressed(_) => panic!("expected a compressed record"),
    }
}

#[test]
fn arbitrary_frames_are_read_or_refused() {
    let mut state: u64 = 0x2545_F491_4F6C_DD1D;
    let mut next = move || {
        state = state.wrapping_mul(6364136223846793005).wrapping_add(1442695040888963407);
        (state >> 33) as u8
    };
    let mut read = 0;
    let mut refused = 0;
    for round in 0..20000usize {
        let mut frame: Vec<u8> = (0..round % 48).map(|_| next()).collect();
        if frame.len() >= 5 {
            frame[2] = 0;
            frame[3] = 0;
            let last = frame.len() - 1;
            frame[last] = next() % 3;
        }
        match Codec::Lz4.unpack(&frame) {
            Ok(payload) => {
                read += 1;
                if frame[frame.len() - 1] == 0 {
                    assert_eq!(payload[..], frame[..frame.len() - 1]);
                }
            }
            Err(_) => refused += 1,
        }
        assert_eq!(Codec::Plain.unpack(&frame), Ok(frame));
    }
    assert_eq!(read + refused, 20000);
    assert!(read > 0 && refused > 0);
}
