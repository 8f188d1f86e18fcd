use async_rt::signal::{decode_message, encode_completion};

#[test]
fn encoding_adds_one_past_half_the_range() {
    assert_eq!(encode_completion(7), 7 + 1 + usize::MAX / 2);
    assert_eq!(encode_completion(0), 1 + usize::MAX / 2);
}

#[test]
fn encoded_signal_clears_the_threshold() {
    assert!(encode_completion(0) > usize::MAX / 2);
    assert!(encode_completion(usize::MAX / 2) > usize::MAX / 2);
}

#[test]
fn decode_round_trips_the_id() {
    for id in [0usize, 1, 7, 100, usize::MAX / 2] {
        assert_eq!(decode_message(encode_completion(id)), Some(id));
    }
}

#[test]
fn ordinary_words_decode_to_none() {
    assert_eq!(decode_message(0), None);
    assert_eq!(decode_message(7), None);
    assert_eq!(decode_message(usize::MAX / 2), None);
}

#[test]
fn every_word_above_the_threshold_is_a_signal() {
    assert_eq!(decode_message(usize::MAX / 2 + 1), Some(0));
    assert_eq!(decode_message(usize::MAX), Some(usize::MAX / 2));
}

#[test]
fn largest_issuable_id_still_encodes() {
    let id = usize::MAX / 2;
    assert_eq!(encode_completion(id), usize::MAX);
    assert_eq!(decode_message(usize::MAX), Some(id));
}
