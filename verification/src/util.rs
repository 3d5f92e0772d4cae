use vstd::prelude::*;

verus! {

/// The number of bytes of `buffer` before its first zero byte: the length
/// of the C string that the buffer holds, or of the whole buffer where it
/// holds no zero.
pub open spec fn text_len(buffer: Seq<u8>) -> int
    decreases buffer.len(),
{
    if buffer.len() == 0 || buffer[0] == 0 {
        0
    } else {
        1 + text_len(buffer.drop_first())
    }
}

/// The text of a buffer ends at the first zero byte: no byte before
/// `text_len` is zero, and the byte at `text_len`, where there is one, is.
pub proof fn law_text_ends_at_first_zero(buffer: Seq<u8>)
    ensures
        0 <= text_len(buffer) <= buffer.len(),
        forall|i: int| 0 <= i < text_len(buffer) ==> buffer[i] != 0,
        text_len(buffer) < buffer.len() ==> buffer[text_len(buffer)] == 0,
    decreases buffer.len(),
{
    if buffer.len() == 0 || buffer[0] == 0 {
    } else {
        let rest = buffer.drop_first();
        law_text_ends_at_first_zero(rest);
        assert forall|i: int| 0 <= i < text_len(buffer) implies buffer[i] != 0 by {
            if i > 0 {
                assert(buffer[i] == rest[i - 1]);
            }
        }
        if text_len(buffer) < buffer.len() {
            assert(buffer[text_len(buffer)] == rest[text_len(rest)]);
        }
    }
}

/// A prefix without a zero byte that ends at a zero byte, or at the end of
/// the buffer, is the text of the buffer.
pub proof fn lemma_text_len_is(buffer: Seq<u8>, n: int)
    requires
        0 <= n <= buffer.len(),
        forall|i: int| 0 <= i < n ==> buffer[i] != 0,
        n < buffer.len() ==> buffer[n] == 0,
    ensures
        text_len(buffer) == n,
    decreases buffer.len(),
{
    if buffer.len() == 0 || buffer[0] == 0 {
    } else {
        let rest = buffer.drop_first();
        assert forall|i: int| 0 <= i < n - 1 implies rest[i] != 0 by {
            assert(rest[i] == buffer[i + 1]);
        }
        lemma_text_len_is(rest, n - 1);
    }
}

/// Appends to `text` the bytes of `buffer` that stand before its first zero
/// byte: what a read of a C string into `buffer` brought.
pub fn append_until_nul(text: &mut Vec<u8>, buffer: &[u8])
    ensures
        final(text)@ == old(text)@ + buffer@.take(text_len(buffer@)),
{
    let mut i: usize = 0;
    while i < buffer.len() && buffer[i] != 0
        invariant
            i <= buffer.len(),
            forall|j: int| 0 <= j < i ==> buffer@[j] != 0,
            text@ =~= old(text)@ + buffer@.take(i as int),
        decreases buffer.len() - i,
    {
        text.push(buffer[i]);
        i = i + 1;
    }
    proof {
        lemma_text_len_is(buffer@, i as int);
    }
}

/// What the reader of a listing does next.
#[derive(Clone, Copy, Debug, PartialEq, Eq, Structural)]
pub enum DumpStep {
    /// Read the next piece of the listing and hand it over.
    ReadMore,
    /// The listing is complete.
    Finished,
}

/// Collects the text of a listing that arrives in pieces, each a buffer
/// that holds a C string.
pub struct DumpReader {
    text: Vec<u8>,
    finished: bool,
}

impl DumpReader {
    /// The text collected so far.
    pub closed spec fn text(&self) -> Seq<u8> {
        self.text@
    }

    /// Whether the end of the listing was seen.
    pub closed spec fn finished(&self) -> bool {
        self.finished
    }

    /// Returns a reader that has collected nothing.
    pub fn new() -> (reader: DumpReader)
        ensures
            reader.text() == Seq::<u8>::empty(),
            !reader.finished(),
    {
        DumpReader { text: Vec::new(), finished: false }
    }

    /// Takes what a read left in `buffer`, and whether the read found the
    /// listing at its end, which is what `at_end` says. A read that brought
    /// something adds the bytes before the buffer's first zero to the text.
    /// The read that finds the end brings nothing, and the buffer still holds
    /// what the read before it brought: the text stays as it is. After the
    /// end nothing is taken any more.
    pub fn accept(&mut self, buffer: &[u8], at_end: bool) -> (step: DumpStep)
        ensures
            final(self).text() == if old(self).finished() || at_end {
                old(self).text()
            } else {
                old(self).text() + buffer@.take(text_len(buffer@))
            },
            final(self).finished() == (old(self).finished() || at_end),
            step == if final(self).finished() {
                DumpStep::Finished
            } else {
                DumpStep::ReadMore
            },
    {
        if self.finished {
            return DumpStep::Finished;
        }
        if at_end {
            self.finished = true;
            return DumpStep::Finished;
        }
        append_until_nul(&mut self.text, buffer);
        DumpStep::ReadMore
    }

    /// Returns the text collected.
    pub fn into_text(self) -> (text: Vec<u8>)
        ensures
            text@ == self.text(),
    {
        self.text
    }
}

} // verus!
