use oaapi::buffer::LineBuffer;

#[test]
fn lines_are_taken_one_at_a_time() {
    let mut b = LineBuffer::new();
    assert_eq!(b.try_take_line(), None);
    b.append(b"ab");
    assert_eq!(b.try_take_line(), None);
    assert_eq!(b.len(), 2);
    b.append(b"c\n\nde\nf");
    assert_eq!(b.try_take_line(), Some(b"abc".to_vec()));
    assert_eq!(b.try_take_line(), Some(Vec::new()));
    assert_eq!(b.try_take_line(), Some(b"de".to_vec()));
    assert_eq!(b.try_take_line(), None);
    assert_eq!(b.len(), 1);
    assert_eq!(b.take_remainder_if_nonempty(), Some(b"f".to_vec()));
    assert_eq!(b.len(), 0);
    assert_eq!(b.take_remainder_if_nonempty(), None);
}

#[test]
fn empty_chunks_change_nothing() {
    let mut b = LineBuffer::new();
    b.append(b"");
    assert_eq!(b.len(), 0);
    assert_eq!(b.take_remainder_if_nonempty(), None);
}
