use mac_controller::ingest::{decode_chunk, sample_of, IngestStream, SampleChunk};

#[test]
fn sample_is_little_endian() {
    assert_eq!(sample_of(0x01, 0x02), 0x0201);
    assert_eq!(sample_of(0xff, 0x7f), i16::MAX);
    assert_eq!(sample_of(0x00, 0x80), i16::MIN);
    assert_eq!(sample_of(0xff, 0xff), -1);
    assert_eq!(sample_of(0x00, 0x00), 0);
    assert_eq!(sample_of(0xfe, 0xff), -2);
}

#[test]
fn sample_agrees_with_std_on_every_pair() {
    for lo in 0..=255u8 {
        for hi in 0..=255u8 {
            assert_eq!(sample_of(lo, hi), i16::from_le_bytes([lo, hi]));
        }
    }
}

#[test]
fn even_delivery_gives_half_as_many_samples() {
    let bytes = [0x01, 0x00, 0x02, 0x00, 0xff, 0xff, 0x00, 0x80];
    assert_eq!(decode_chunk(&bytes), vec![1, 2, -1, i16::MIN]);
}

#[test]
fn empty_delivery_gives_an_empty_chunk() {
    assert_eq!(decode_chunk(&[]), Vec::<i16>::new());
    assert_eq!(SampleChunk::from_bytes(&[]).len(), 0);
}

#[test]
fn single_byte_is_padded_with_a_zero_high_byte() {
    assert_eq!(decode_chunk(&[0xff]), vec![0x00ff]);
    assert_eq!(decode_chunk(&[0x80]), vec![128]);
}

#[test]
fn ninety_nine_bytes_give_fifty_samples() {
    let bytes: Vec<u8> = (0..99u32).map(|i| (i * 7 + 200) as u8).collect();
    let samples = decode_chunk(&bytes);
    assert_eq!(samples.len(), 50);
    let last = samples[49];
    assert_eq!(last.to_le_bytes()[1], 0);
    assert_eq!(last.to_le_bytes()[0], bytes[98]);
    for k in 0..49 {
        assert_eq!(samples[k].to_le_bytes(), [bytes[2 * k], bytes[2 * k + 1]]);
    }
}

#[test]
fn odd_delivery_of_ninety_nine_pairs_and_one_byte() {
    let bytes: Vec<u8> = (0..199u32).map(|i| (255 - (i % 256)) as u8).collect();
    let samples = decode_chunk(&bytes);
    assert_eq!(samples.len(), 100);
    assert_eq!(samples[99].to_le_bytes(), [bytes[198], 0]);
}

#[test]
fn lengths_follow_the_byte_count() {
    for n in 0..40usize {
        let bytes = vec![0xabu8; n];
        assert_eq!(decode_chunk(&bytes).len(), (n + 1) / 2);
    }
}

#[test]
fn chunk_keeps_its_samples() {
    let chunk = SampleChunk::from_samples(vec![3, -4, 5]);
    assert_eq!(chunk.len(), 3);
    assert_eq!(chunk.as_slice(), &[3, -4, 5]);
    assert_eq!(chunk.into_samples(), vec![3, -4, 5]);
    let decoded = SampleChunk::from_bytes(&[0x34, 0x12, 0x01]);
    assert_eq!(decoded.as_slice(), &[0x1234, 1]);
}

#[test]
fn stream_gives_one_chunk_per_delivery() {
    let mut stream = IngestStream::new();
    assert!(!stream.finished());
    let first = stream.next_chunk(Some(&[1, 0, 2])).unwrap();
    assert_eq!(first.as_slice(), &[1, 2]);
    let second = stream.next_chunk(Some(&[0, 3])).unwrap();
    assert_eq!(second.as_slice(), &[0x0300]);
    let empty = stream.next_chunk(Some(&[])).unwrap();
    assert_eq!(empty.len(), 0);
    assert!(!stream.finished());
}

#[test]
fn stream_ends_with_its_source_and_stays_ended() {
    let mut stream = IngestStream::new();
    assert!(stream.next_chunk(Some(&[1, 2])).is_some());
    assert!(stream.next_chunk(None).is_none());
    assert!(stream.finished());
    assert!(stream.next_chunk(Some(&[1, 2])).is_none());
    assert!(stream.finished());
}

#[test]
fn stream_ends_when_the_consumer_is_gone() {
    let mut stream = IngestStream::new();
    assert!(stream.next_chunk(Some(&[1, 2])).is_some());
    assert!(stream.offer_result(true));
    assert!(!stream.finished());
    assert!(stream.next_chunk(Some(&[3, 4])).is_some());
    assert!(!stream.offer_result(false));
    assert!(stream.finished());
    assert!(stream.next_chunk(Some(&[5, 6])).is_none());
    assert!(!stream.offer_result(true));
}
