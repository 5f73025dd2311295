use insh::frame::{frame, length_bytes, length_of, LENGTH_SIZE};

#[test]
fn a_frame_is_the_length_then_the_payload() {
    let framed = frame(b"hello");
    assert_eq!(framed.len(), LENGTH_SIZE + 5);
    assert_eq!(&framed[..LENGTH_SIZE], &[0, 0, 0, 0, 0, 0, 0, 5]);
    assert_eq!(&framed[LENGTH_SIZE..], b"hello");
}

#[test]
fn a_length_is_read_back_as_it_was_written() {
    for n in [0u64, 1, 255, 256, 65_536, u64::MAX] {
        assert_eq!(length_of(&length_bytes(n)), n);
    }
    assert_eq!(length_bytes(258), [0, 0, 0, 0, 0, 0, 1, 2]);
}
