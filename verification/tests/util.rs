use gnu_libjit::{append_until_nul, DumpReader, DumpStep};

#[test]
fn the_text_of_a_buffer_ends_at_its_first_zero() {
    let mut text = b"ab".to_vec();
    append_until_nul(&mut text, b"cd\0ef\0");
    assert_eq!(text, b"abcd".to_vec());
}

#[test]
fn a_buffer_without_a_zero_is_taken_whole() {
    let mut text = Vec::new();
    append_until_nul(&mut text, b"xyz");
    assert_eq!(text, b"xyz".to_vec());
}

#[test]
fn a_buffer_that_starts_with_a_zero_adds_nothing() {
    let mut text = b"keep".to_vec();
    append_until_nul(&mut text, &[0u8; 64]);
    assert_eq!(text, b"keep".to_vec());
    append_until_nul(&mut text, &[]);
    assert_eq!(text, b"keep".to_vec());
}

#[test]
fn the_reader_collects_pieces_until_the_end() {
    let mut reader = DumpReader::new();
    assert_eq!(reader.accept(b"function f(\0", false), DumpStep::ReadMore);
    assert_eq!(reader.accept(b") {}\n\0\0\0", false), DumpStep::ReadMore);
    // The read that finds the end leaves the buffer as it was: its text is
    // not taken a second time.
    assert_eq!(reader.accept(b") {}\n\0\0\0", true), DumpStep::Finished);
    assert_eq!(reader.accept(b"late\0", false), DumpStep::Finished);
    assert_eq!(reader.into_text(), b"function f() {}\n".to_vec());
}

#[test]
fn a_listing_in_one_piece_is_returned_once() {
    let mut reader = DumpReader::new();
    assert_eq!(reader.accept(b"ret\n\0", false), DumpStep::ReadMore);
    assert_eq!(reader.accept(b"ret\n\0", true), DumpStep::Finished);
    assert_eq!(reader.into_text(), b"ret\n".to_vec());
}

#[test]
fn an_empty_listing_gives_no_text() {
    let mut reader = DumpReader::new();
    assert_eq!(reader.accept(&[0u8; 64], true), DumpStep::Finished);
    assert_eq!(reader.into_text(), Vec::<u8>::new());
}

#[test]
fn a_listing_longer_than_the_buffer_comes_back_whole() {
    let written: Vec<u8> = (0..200u32).map(|i| b'a' + (i % 26) as u8).collect();
    let mut reader = DumpReader::new();
    let mut buffer = [0u8; 64];
    for piece in written.chunks(63) {
        buffer[..piece.len()].copy_from_slice(piece);
        buffer[piece.len()] = 0;
        assert_eq!(reader.accept(&buffer, false), DumpStep::ReadMore);
    }
    assert_eq!(reader.accept(&buffer, true), DumpStep::Finished);
    assert_eq!(reader.into_text(), written);
}
