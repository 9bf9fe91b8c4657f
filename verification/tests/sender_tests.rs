use midir::errors::SendError;
use midir::sender::{EventEncoder, INITIAL_CODER_BUFFER_SIZE};

#[test]
fn fresh_encoder_has_the_initial_capacity() {
    let enc = EventEncoder::new(INITIAL_CODER_BUFFER_SIZE);
    assert_eq!(enc.get_buffer_size(), 32);
}

#[test]
fn short_messages_need_no_resize() {
    let enc = EventEncoder::new(32);
    assert_eq!(enc.required_resize(0), None);
    assert_eq!(enc.required_resize(31), None);
    assert_eq!(enc.required_resize(32), None);
}

#[test]
fn long_messages_grow_the_buffer_to_their_length() {
    let enc = EventEncoder::new(32);
    assert_eq!(enc.required_resize(33), Some(33));
    assert_eq!(enc.required_resize(1000), Some(1000));
}

#[test]
fn successful_resize_is_recorded_and_suffices() {
    let mut enc = EventEncoder::new(32);
    let grown = enc.required_resize(100).expect("100 bytes outgrow 32");
    assert!(enc.resize_buffer(grown, true).is_ok());
    assert_eq!(enc.get_buffer_size(), 100);
    // After the implicit resize the same message fits.
    assert_eq!(enc.required_resize(100), None);
}

#[test]
fn failed_resize_is_other_and_leaves_capacity() {
    let mut enc = EventEncoder::new(32);
    let r = enc.resize_buffer(100, false);
    assert!(matches!(r, Err(SendError::Other(_))));
    assert_eq!(enc.get_buffer_size(), 32);
}

#[test]
fn rejected_encode_is_invalid_data() {
    let enc = EventEncoder::new(32);
    assert!(enc.encode_outcome(true).is_ok());
    assert!(matches!(enc.encode_outcome(false), Err(SendError::InvalidData(_))));
}

#[test]
fn refused_transmit_is_other() {
    let enc = EventEncoder::new(32);
    assert!(enc.transmit_outcome(true).is_ok());
    assert!(matches!(enc.transmit_outcome(false), Err(SendError::Other(_))));
}
