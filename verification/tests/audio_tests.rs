use rusty_tuner::audio::{AudioBuffer, BUFFER_SIZE};

#[test]
fn new_buffer_is_silent() {
    let buf: AudioBuffer<f32> = AudioBuffer::new(44100, 0.0);
    assert_eq!(buf.sample_rate, 44100);
    assert_eq!(buf.write_pos, 0);
    assert_eq!(buf.samples.len(), BUFFER_SIZE);
    assert_eq!(buf.latest(3), vec![0.0, 0.0, 0.0]);
    assert!(buf.latest(0).is_empty());
}

#[test]
fn latest_returns_most_recent_in_order() {
    let mut buf: AudioBuffer<f32> = AudioBuffer::new(48000, 0.0);
    buf.push_samples(&[1.0, 2.0, 3.0], 1);
    assert_eq!(buf.latest(3), vec![1.0, 2.0, 3.0]);
    assert_eq!(buf.latest(2), vec![2.0, 3.0]);
    assert_eq!(buf.latest(5), vec![0.0, 0.0, 1.0, 2.0, 3.0]);
    assert_eq!(buf.write_pos, 3);
}

#[test]
fn interleaved_input_keeps_first_channel() {
    let mut buf: AudioBuffer<i32> = AudioBuffer::new(44100, 0);
    buf.push_samples(&[1, 10, 2, 20, 3], 2);
    assert_eq!(buf.latest(3), vec![1, 2, 3]);
    assert_eq!(buf.write_pos, 3);
    assert_eq!(&buf.samples[..3], &[1, 2, 3]);
    buf.push_samples(&[4, 40, 400, 5, 50, 500], 3);
    assert_eq!(buf.latest(5), vec![1, 2, 3, 4, 5]);
}

#[test]
fn latest_is_capped_at_buffer_size() {
    let buf: AudioBuffer<u8> = AudioBuffer::new(44100, 7);
    let all = buf.latest(BUFFER_SIZE + 100);
    assert_eq!(all.len(), BUFFER_SIZE);
    assert!(all.iter().all(|&s| s == 7));
}

#[test]
fn ring_wraps_around() {
    let mut buf: AudioBuffer<u32> = AudioBuffer::new(44100, 0);
    let data: Vec<u32> = (0..(BUFFER_SIZE as u32 + 5)).collect();
    buf.push_samples(&data, 1);
    assert_eq!(buf.write_pos, 5);
    let latest = buf.latest(BUFFER_SIZE);
    assert_eq!(latest, data[5..].to_vec());
    assert_eq!(buf.latest(2), vec![BUFFER_SIZE as u32 + 3, BUFFER_SIZE as u32 + 4]);
}

#[test]
fn pushing_in_two_steps_equals_one() {
    let mut a: AudioBuffer<u32> = AudioBuffer::new(44100, 0);
    let mut b: AudioBuffer<u32> = AudioBuffer::new(44100, 0);
    let data: Vec<u32> = (1..=100).collect();
    a.push_samples(&data, 1);
    b.push_samples(&data[..37], 1);
    b.push_samples(&data[37..], 1);
    assert_eq!(a.latest(BUFFER_SIZE), b.latest(BUFFER_SIZE));
}

#[test]
fn single_sample_push() {
    let mut buf: AudioBuffer<f32> = AudioBuffer::new(44100, 0.0);
    buf.push_sample(0.5);
    assert_eq!(buf.latest(1), vec![0.5]);
    assert_eq!(buf.write_pos, 1);
}
