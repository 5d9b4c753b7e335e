//! The line buffer accumulator: bytes arrive in arbitrary chunks and leave
//! one complete line at a time.
use vstd::prelude::*;

verus! {

/// `bytes::BytesMut`, the growable byte buffer that holds bytes not yet
/// read as lines. Its contents are named by `bytes_held`.
#[verifier::external_type_specification]
#[verifier::external_body]
pub struct ExBytesMut(bytes::BytesMut);

/// The bytes that a `BytesMut` holds, in order.
pub uninterp spec fn bytes_held(b: bytes::BytesMut) -> Seq<u8>;

/// Relies on `BytesMut::new`: a new buffer holds no bytes.
pub assume_specification[ bytes::BytesMut::new ]() -> (r: bytes::BytesMut)
    ensures
        bytes_held(r) == Seq::<u8>::empty(),
;

/// Relies on `BytesMut::len`: the number of bytes held.
pub assume_specification[ bytes::BytesMut::len ](b: &bytes::BytesMut) -> (r: usize)
    ensures
        r == bytes_held(*b).len(),
;

/// Relies on `BytesMut::extend_from_slice`: the slice is appended at the end.
pub assume_specification[ bytes::BytesMut::extend_from_slice ](
    b: &mut bytes::BytesMut,
    extend: &[u8],
)
    ensures
        bytes_held(*final(b)) == bytes_held(*old(b)) + extend@,
;

/// Relies on `BytesMut::split_to`: the first `at` bytes are handed out and
/// the rest stay behind. It panics when `at` exceeds the length.
pub assume_specification[ bytes::BytesMut::split_to ](
    b: &mut bytes::BytesMut,
    at: usize,
) -> (r: bytes::BytesMut)
    requires
        at <= bytes_held(*old(b)).len(),
    ensures
        bytes_held(r) == bytes_held(*old(b)).subrange(0, at as int),
        bytes_held(*final(b)) == bytes_held(*old(b)).subrange(
            at as int,
            bytes_held(*old(b)).len() as int,
        ),
;

/// Relies on indexing a `BytesMut` through its `Deref` to `[u8]`.
#[verifier::external_body]
fn byte_at(b: &bytes::BytesMut, i: usize) -> (r: u8)
    requires
        i < bytes_held(*b).len(),
    ensures
        r == bytes_held(*b)[i as int],
{
    b[i]
}

/// Relies on `<BytesMut as Buf>::advance`: the first `n` bytes are dropped.
/// It panics when `n` exceeds the length.
#[verifier::external_body]
fn drop_front(b: &mut bytes::BytesMut, n: usize)
    requires
        n <= bytes_held(*old(b)).len(),
    ensures
        bytes_held(*final(b)) == bytes_held(*old(b)).subrange(
            n as int,
            bytes_held(*old(b)).len() as int,
        ),
{
    bytes::Buf::advance(b, n)
}

/// Relies on `[u8]::to_vec` through the `Deref` of `BytesMut`: a copy of
/// the bytes held.
#[verifier::external_body]
fn held_to_vec(b: &bytes::BytesMut) -> (r: Vec<u8>)
    ensures
        r@ == bytes_held(*b),
{
    b.to_vec()
}

/// The line terminator.
pub const NEWLINE: u8 = 10;

/// `i` is the position of the first newline byte of `b`.
pub open spec fn is_line_end(b: Seq<u8>, i: int) -> bool {
    &&& 0 <= i < b.len()
    &&& b[i] == NEWLINE
    &&& forall|j: int| 0 <= j < i ==> b[j] != NEWLINE
}

/// `b` holds at least one complete line.
pub open spec fn has_line(b: Seq<u8>) -> bool {
    exists|i: int| is_line_end(b, i)
}

/// The position of the first newline byte of `b`.
pub open spec fn line_end(b: Seq<u8>) -> int
    recommends
        has_line(b),
{
    choose|i: int| is_line_end(b, i)
}

/// The first complete line of `b`, without its terminator.
pub open spec fn first_line(b: Seq<u8>) -> Seq<u8> {
    b.take(line_end(b))
}

/// What follows the first newline byte of `b`.
pub open spec fn after_first_line(b: Seq<u8>) -> Seq<u8> {
    b.skip(line_end(b) + 1)
}

/// There is one first newline.
pub proof fn lemma_line_end_unique(b: Seq<u8>, i: int)
    requires
        is_line_end(b, i),
    ensures
        has_line(b),
        line_end(b) == i,
{
    let k = line_end(b);
    assert(is_line_end(b, k));
    if k < i {
        assert(b[k] != NEWLINE);
    } else if i < k {
        assert(b[i] != NEWLINE);
    }
}

/// A buffer of bytes from which complete lines are taken.
pub struct LineBuffer {
    buffer: bytes::BytesMut,
}

impl View for LineBuffer {
    type V = Seq<u8>;

    closed spec fn view(&self) -> Seq<u8> {
        bytes_held(self.buffer)
    }
}

impl LineBuffer {
    /// An empty buffer.
    pub fn new() -> (r: Self)
        ensures
            r@ == Seq::<u8>::empty(),
    {
        LineBuffer { buffer: bytes::BytesMut::new() }
    }

    /// The number of bytes held.
    pub fn len(&self) -> (r: usize)
        ensures
            r == self@.len(),
    {
        self.buffer.len()
    }

    /// Appends a chunk at the end.
    pub fn append(&mut self, chunk: &[u8])
        ensures
            final(self)@ == old(self)@ + chunk@,
    {
        self.buffer.extend_from_slice(chunk);
    }

    /// The position of the first newline byte held, if any.
    fn find_newline(&self) -> (r: Option<usize>)
        ensures
            r matches Some(i) ==> is_line_end(self@, i as int),
            r is None ==> !has_line(self@),
    {
        let n = self.buffer.len();
        let mut i: usize = 0;
        while i < n
            invariant
                n == self@.len(),
                i <= n,
                forall|j: int| 0 <= j < i ==> self@[j] != NEWLINE,
            decreases n - i,
        {
            if byte_at(&self.buffer, i) == NEWLINE {
                return Some(i);
            }
            i = i + 1;
        }
        assert forall|k: int| !is_line_end(self@, k) by {
            if 0 <= k < self@.len() {
                assert(self@[k] != NEWLINE);
            }
        }
        None
    }

    /// Takes the first complete line, without its newline byte, and drops
    /// that newline from the buffer. Leaves the buffer untouched when it
    /// holds no newline.
    pub fn try_take_line(&mut self) -> (r: Option<Vec<u8>>)
        ensures
            r matches Some(line) ==> {
                &&& has_line(old(self)@)
                &&& line@ == first_line(old(self)@)
                &&& final(self)@ == after_first_line(old(self)@)
            },
            r is None ==> !has_line(old(self)@) && final(self)@ == old(self)@,
    {
        match self.find_newline() {
            Some(pos) => {
                proof {
                    lemma_line_end_unique(self@, pos as int);
                }
                let line = self.buffer.split_to(pos);
                drop_front(&mut self.buffer, 1);
                let bytes = held_to_vec(&line);
                assert(bytes@ =~= first_line(old(self)@));
                assert(self@ =~= after_first_line(old(self)@));
                Some(bytes)
            },
            None => None,
        }
    }

    /// Once no more bytes can come: drains the whole buffer as a final,
    /// unterminated line when it is not empty.
    pub fn take_remainder_if_nonempty(&mut self) -> (r: Option<Vec<u8>>)
        ensures
            old(self)@.len() == 0 ==> r is None && final(self)@ == old(self)@,
            old(self)@.len() > 0 ==> (r matches Some(line) && line@ == old(self)@),
            old(self)@.len() > 0 ==> final(self)@.len() == 0,
    {
        let n = self.buffer.len();
        if n == 0 {
            None
        } else {
            let all = self.buffer.split_to(n);
            let bytes = held_to_vec(&all);
            assert(bytes@ =~= old(self)@);
            Some(bytes)
        }
    }
}

} // verus!
