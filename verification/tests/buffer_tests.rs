use mac_controller::buffer::PlaybackBuffer;
use mac_controller::ingest::SampleChunk;

fn filled(samples: &[i16]) -> PlaybackBuffer {
    let mut buffer = PlaybackBuffer::new();
    buffer.append(SampleChunk::from_samples(samples.to_vec()));
    buffer
}

#[test]
fn new_buffer_is_empty() {
    let mut buffer = PlaybackBuffer::new();
    assert_eq!(buffer.len(), 0);
    let mut out = [9i16; 3];
    assert_eq!(buffer.render(&mut out, 1, 1), 0);
    assert_eq!(out, [0, 0, 0]);
}

#[test]
fn append_keeps_arrival_order_across_chunks() {
    let mut buffer = PlaybackBuffer::new();
    buffer.append(SampleChunk::from_samples(vec![1, 2, 3]));
    buffer.append(SampleChunk::from_samples(vec![]));
    buffer.append(SampleChunk::from_samples(vec![4, 5]));
    assert_eq!(buffer.len(), 5);
    let mut out = [0i16; 4];
    assert_eq!(buffer.render(&mut out, 2, 2), 4);
    assert_eq!(out, [1, 2, 3, 4]);
    assert_eq!(buffer.len(), 1);
    let mut rest = [7i16; 1];
    assert_eq!(buffer.render(&mut rest, 2, 2), 1);
    assert_eq!(rest, [5]);
    assert_eq!(buffer.len(), 0);
}

#[test]
fn underrun_is_filled_with_zero() {
    let mut buffer = filled(&[11, -12]);
    let mut out = [99i16; 5];
    assert_eq!(buffer.render(&mut out, 1, 1), 2);
    assert_eq!(out, [11, -12, 0, 0, 0]);
    assert_eq!(buffer.len(), 0);
    let mut again = [99i16; 2];
    assert_eq!(buffer.render(&mut again, 1, 1), 0);
    assert_eq!(again, [0, 0]);
}

#[test]
fn mono_on_stereo_fills_both_channels() {
    let mut buffer = filled(&[5, -6, 7]);
    let mut out = [99i16; 4];
    assert_eq!(buffer.render(&mut out, 1, 2), 2);
    assert_eq!(out, [5, 5, -6, -6]);
    assert_eq!(buffer.len(), 1);
}

#[test]
fn upmix_underrun_is_silent_in_both_channels() {
    let mut buffer = filled(&[5]);
    let mut out = [99i16; 6];
    assert_eq!(buffer.render(&mut out, 1, 2), 1);
    assert_eq!(out, [5, 5, 0, 0, 0, 0]);
    assert_eq!(buffer.len(), 0);
}

#[test]
fn other_channel_pairings_pass_through() {
    for (source, output) in [(2u16, 2u16), (2, 1), (1, 1), (1, 6), (3, 2), (0, 2), (1, 0)] {
        let mut buffer = filled(&[1, 2, 3, 4]);
        let mut out = [99i16; 3];
        assert_eq!(buffer.render(&mut out, source, output), 3);
        assert_eq!(out, [1, 2, 3]);
        assert_eq!(buffer.len(), 1);
    }
}

#[test]
fn empty_output_takes_nothing() {
    let mut buffer = filled(&[1, 2]);
    let mut out: [i16; 0] = [];
    assert_eq!(buffer.render(&mut out, 1, 2), 0);
    assert_eq!(buffer.render(&mut out, 2, 2), 0);
    assert_eq!(buffer.len(), 2);
}

#[test]
fn rendered_samples_are_not_played_twice() {
    let mut buffer = filled(&[1, 2, 3]);
    let mut out = [0i16; 2];
    buffer.render(&mut out, 1, 1);
    assert_eq!(out, [1, 2]);
    buffer.render(&mut out, 1, 1);
    assert_eq!(out, [3, 0]);
    buffer.render(&mut out, 1, 1);
    assert_eq!(out, [0, 0]);
}
