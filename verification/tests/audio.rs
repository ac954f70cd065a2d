//! The callback's decisions and the layout of samples in a file.

use espeakng::audio::{CALLBACK_CONTINUE, EVENT_LIST_TERMINATED};
use espeakng::{append_samples, carries_audio, decode_samples, encode_samples, skips_event};

#[test]
fn callback_without_samples_is_passed_over() {
    assert!(!carries_audio(false, 10));
    assert!(!carries_audio(true, 0));
    assert!(!carries_audio(false, 0));
    assert!(!carries_audio(true, -1));
    assert!(carries_audio(true, 1));
    assert!(carries_audio(true, i32::MAX));
}

#[test]
fn callback_skips_terminator_events_only() {
    assert_eq!(EVENT_LIST_TERMINATED, 0);
    assert!(skips_event(0));
    for event_type in 1..=8 {
        assert!(!skips_event(event_type));
    }
}

#[test]
fn samples_are_appended_in_order() {
    let mut buffer = vec![1, 2];
    assert_eq!(append_samples(&mut buffer, &[3, -4]), CALLBACK_CONTINUE);
    assert_eq!(append_samples(&mut buffer, &[]), 0);
    assert_eq!(append_samples(&mut buffer, &[5]), 0);
    assert_eq!(buffer, vec![1, 2, 3, -4, 5]);
}

#[test]
fn samples_are_laid_out_low_byte_first() {
    assert_eq!(encode_samples(&[0x1234]), vec![0x34, 0x12]);
    assert_eq!(encode_samples(&[1, -1]), vec![1, 0, 255, 255]);
    assert_eq!(encode_samples(&[i16::MIN, i16::MAX]), vec![0, 0x80, 0xff, 0x7f]);
    assert_eq!(encode_samples(&[-2, 256]), vec![0xfe, 0xff, 0, 1]);
    assert_eq!(encode_samples(&[]), Vec::<u8>::new());
}

#[test]
fn layout_is_that_of_the_standard_library() {
    for sample in [0i16, 1, -1, 255, 256, -256, 12345, -12345, i16::MIN, i16::MAX] {
        assert_eq!(encode_samples(&[sample]), sample.to_le_bytes().to_vec());
        assert_eq!(decode_samples(&sample.to_le_bytes()), vec![sample]);
    }
}

#[test]
fn reading_back_gives_the_samples() {
    let samples: Vec<i16> = (-300..300).map(|i| (i * 109) as i16).collect();
    let bytes = encode_samples(&samples);
    assert_eq!(bytes.len(), 2 * samples.len());
    assert_eq!(decode_samples(&bytes), samples);
}

#[test]
fn reading_leaves_out_a_last_byte_without_partner() {
    assert_eq!(decode_samples(&[1, 0, 2]), vec![1]);
    assert_eq!(decode_samples(&[7]), Vec::<i16>::new());
    assert_eq!(decode_samples(&[]), Vec::<i16>::new());
}
