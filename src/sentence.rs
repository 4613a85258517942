use vstd::prelude::*;

verus! {

/// Longest NMEA sentence, in characters, that the accumulator holds.
pub const SENTENCE_CAPACITY: usize = 84;

/// Byte that opens an NMEA sentence.
pub const START_MARKER: u8 = 0x24;

/// Byte that ends an NMEA sentence.
pub const LINE_END: u8 = 0x0a;

#[verifier::external_type_specification]
#[verifier::external_body]
pub struct ExHeaplessString<const N: usize>(heapless::String<N>);

/// The characters held by the accumulator string. Its 168 bytes hold
/// `SENTENCE_CAPACITY` characters of up to two UTF-8 bytes each, which is
/// what every received byte becomes.
pub uninterp spec fn text_chars(s: heapless::String<168>) -> Seq<char>;

/// Number of bytes that `c` takes in UTF-8.
pub open spec fn char_width(c: char) -> nat {
    if (c as u32) < 0x80 {
        1
    } else if (c as u32) < 0x800 {
        2
    } else if (c as u32) < 0x10000 {
        3
    } else {
        4
    }
}

/// Number of bytes that `s` takes in UTF-8.
pub open spec fn utf8_len(s: Seq<char>) -> nat
    decreases s.len(),
{
    if s.len() == 0 {
        0
    } else {
        utf8_len(s.drop_last()) + char_width(s.last())
    }
}

/// Relies on heapless::String::new: a new string is empty.
#[verifier::external_body]
fn text_new() -> (r: heapless::String<168>)
    ensures
        text_chars(r) == Seq::<char>::empty(),
{
    heapless::String::new()
}

/// Relies on heapless::String::clear: the string becomes empty.
#[verifier::external_body]
fn text_clear(s: &mut heapless::String<168>)
    ensures
        text_chars(*final(s)) == Seq::<char>::empty(),
{
    s.clear()
}

/// Relies on heapless::String::push: the character is appended when its
/// UTF-8 bytes fit in the capacity; otherwise the string is unchanged and an
/// error is returned.
#[verifier::external_body]
fn text_push(s: &mut heapless::String<168>, c: char) -> (r: bool)
    ensures
        r == (utf8_len(text_chars(*old(s))) + char_width(c) <= 168),
        r ==> text_chars(*final(s)) == text_chars(*old(s)).push(c),
        !r ==> text_chars(*final(s)) == text_chars(*old(s)),
{
    s.push(c).is_ok()
}

/// Relies on heapless::String::as_str: the text as a string slice, copied
/// into an owned string.
#[verifier::external_body]
fn text_to_string(s: &heapless::String<168>) -> (r: String)
    ensures
        r@ == text_chars(*s),
{
    String::from(s.as_str())
}

/// The character that a received byte stands for (its Latin-1 reading).
pub open spec fn byte_char(b: u8) -> char {
    b as char
}

/// Every character of `s` is the reading of one byte.
pub open spec fn all_byte_chars(s: Seq<char>) -> bool {
    forall|i: int| 0 <= i < s.len() ==> (#[trigger] s[i] as u32) < 0x100
}

/// One byte of the reassembly machine: the new accumulator, and the sentence
/// that this byte completes, if any. A start marker drops what was held;
/// every byte is then appended; a line end, or a full accumulator, completes
/// the sentence.
pub open spec fn step(acc: Seq<char>, b: u8) -> (Seq<char>, Option<Seq<char>>) {
    let base = if b == START_MARKER {
        Seq::<char>::empty()
    } else {
        acc
    };
    let next = base.push(byte_char(b));
    if b == LINE_END || next.len() == SENTENCE_CAPACITY {
        (Seq::<char>::empty(), Some(next))
    } else {
        (next, None)
    }
}

/// Feeding `bytes` in order to the machine that holds `acc`: the final
/// accumulator and the sentences completed, in order.
pub open spec fn reassemble(acc: Seq<char>, bytes: Seq<u8>) -> (Seq<char>, Seq<Seq<char>>)
    decreases bytes.len(),
{
    if bytes.len() == 0 {
        (acc, Seq::<Seq<char>>::empty())
    } else {
        let prev = reassemble(acc, bytes.drop_last());
        let cur = step(prev.0, bytes.last());
        match cur.1 {
            Some(s) => (cur.0, prev.1.push(s)),
            None => (cur.0, prev.1),
        }
    }
}

proof fn lemma_byte_chars_width(s: Seq<char>)
    requires
        all_byte_chars(s),
    ensures
        utf8_len(s) <= 2 * s.len(),
    decreases s.len(),
{
    if s.len() > 0 {
        assert(all_byte_chars(s.drop_last()));
        lemma_byte_chars_width(s.drop_last());
        assert((s[s.len() - 1] as u32) < 0x100);
    }
}

/// Splits a received byte stream into NMEA sentences. A start marker drops
/// any partial sentence; a line end, or a full buffer, completes one.
pub struct SentenceAssembler {
    text: heapless::String<168>,
    count: usize,
}

impl SentenceAssembler {
    /// The partial sentence held so far.
    pub closed spec fn content(&self) -> Seq<char> {
        text_chars(self.text)
    }

    /// A held partial sentence never fills the buffer.
    pub closed spec fn wf(&self) -> bool {
        &&& self.count == self.content().len()
        &&& self.content().len() < SENTENCE_CAPACITY
        &&& all_byte_chars(self.content())
    }

    /// An assembler holding nothing.
    pub fn new() -> (r: Self)
        ensures
            r.content() == Seq::<char>::empty(),
            r.wf(),
    {
        SentenceAssembler { text: text_new(), count: 0 }
    }

    /// Takes one byte; returns the sentence that it completes, if any.
    pub fn push_byte(&mut self, b: u8) -> (r: Option<String>)
        requires
            old(self).wf(),
        ensures
            final(self).wf(),
            final(self).content() == step(old(self).content(), b).0,
            match r {
                Some(s) => step(old(self).content(), b).1 == Some(s@),
                None => step(old(self).content(), b).1 is None,
            },
    {
        if b == START_MARKER {
            text_clear(&mut self.text);
            self.count = 0;
        }
        let ghost base = text_chars(self.text);
        let c = b as char;
        proof {
            assert(c == byte_char(b));
            assert((c as u32) < 0x100);
            assert(all_byte_chars(base));
            lemma_byte_chars_width(base);
        }
        let pushed = text_push(&mut self.text, c);
        proof {
            assert(pushed);
            assert(all_byte_chars(base.push(c)));
        }
        self.count = self.count + 1;
        if b == LINE_END || self.count == SENTENCE_CAPACITY {
            let s = text_to_string(&self.text);
            text_clear(&mut self.text);
            self.count = 0;
            Some(s)
        } else {
            None
        }
    }

    /// Takes a chunk of bytes in order; returns the sentences it completes,
    /// in order.
    pub fn feed(&mut self, bytes: &[u8]) -> (r: Vec<String>)
        requires
            old(self).wf(),
        ensures
            final(self).wf(),
            final(self).content() == reassemble(old(self).content(), bytes@).0,
            r@.map_values(|s: String| s@) == reassemble(old(self).content(), bytes@).1,
    {
        let mut out: Vec<String> = Vec::new();
        let ghost start = self.content();
        let mut i: usize = 0;
        while i < bytes.len()
            invariant
                i <= bytes@.len(),
                self.wf(),
                self.content() == reassemble(start, bytes@.subrange(0, i as int)).0,
                out@.map_values(|s: String| s@) == reassemble(start, bytes@.subrange(0, i as int)).1,
            decreases bytes@.len() - i,
        {
            let ghost prefix = bytes@.subrange(0, i as int);
            let ghost next_prefix = bytes@.subrange(0, i + 1);
            proof {
                assert(next_prefix.drop_last() =~= prefix);
                assert(next_prefix.last() == bytes@[i as int]);
            }
            let done = self.push_byte(bytes[i]);
            match done {
                Some(sentence) => {
                    out.push(sentence);
                    proof {
                        assert(out@.map_values(|s: String| s@) =~= reassemble(start, next_prefix).1);
                    }
                },
                None => {},
            }
            i = i + 1;
        }
        proof {
            assert(bytes@.subrange(0, bytes@.len() as int) =~= bytes@);
        }
        out
    }
}

/// Splitting a byte stream into chunks anywhere does not change what the
/// reassembly produces: feeding `a` then `b` ends in the same accumulator, and
/// completes the same sentences in the same order, as feeding `a + b` at once.
pub proof fn chunk_boundary_independence(acc: Seq<char>, a: Seq<u8>, b: Seq<u8>)
    ensures
        reassemble(reassemble(acc, a).0, b).0 == reassemble(acc, a + b).0,
        reassemble(acc, a).1 + reassemble(reassemble(acc, a).0, b).1 == reassemble(acc, a + b).1,
    decreases b.len(),
{
    if b.len() == 0 {
        assert(a + b =~= a);
        assert(reassemble(acc, a).1 + Seq::<Seq<char>>::empty() =~= reassemble(acc, a).1);
    } else {
        chunk_boundary_independence(acc, a, b.drop_last());
        assert((a + b).drop_last() =~= a + b.drop_last());
        assert((a + b).last() == b.last());
        let mid = reassemble(acc, a);
        let first = reassemble(mid.0, b.drop_last());
        let whole = reassemble(acc, a + b.drop_last());
        let cur = step(first.0, b.last());
        match cur.1 {
            Some(s) => {
                assert(mid.1 + first.1.push(s) =~= (mid.1 + first.1).push(s));
            },
            None => {},
        }
    }
}

/// Whether the start marker appears in `s` anywhere after its first position.
pub open spec fn marker_after_start(s: Seq<char>) -> bool {
    exists|i: int| 0 < i < s.len() && s[i] == byte_char(START_MARKER)
}

/// A start marker always discards the partial content: right after it the
/// accumulator holds the marker alone, and no sentence completed from a clean
/// start holds a start marker past its first character.
pub proof fn start_marker_discards(acc: Seq<char>, bytes: Seq<u8>)
    requires
        !marker_after_start(acc),
    ensures
        step(acc, START_MARKER).0 == seq![byte_char(START_MARKER)],
        step(acc, START_MARKER).1 is None,
        !marker_after_start(reassemble(acc, bytes).0),
        forall|k: int| 0 <= k < reassemble(acc, bytes).1.len()
            ==> !marker_after_start(#[trigger] reassemble(acc, bytes).1[k]),
    decreases bytes.len(),
{
    lemma_marker_step(acc, START_MARKER);
    assert(Seq::<char>::empty().push(byte_char(START_MARKER)) =~= seq![byte_char(START_MARKER)]);
    if bytes.len() > 0 {
        start_marker_discards(acc, bytes.drop_last());
        let prev = reassemble(acc, bytes.drop_last());
        lemma_marker_step(prev.0, bytes.last());
    }
}

proof fn lemma_marker_step(acc: Seq<char>, b: u8)
    requires
        !marker_after_start(acc),
    ensures
        !marker_after_start(step(acc, b).0),
        match step(acc, b).1 {
            Some(s) => !marker_after_start(s),
            None => true,
        },
{
    let base = if b == START_MARKER { Seq::<char>::empty() } else { acc };
    let c = byte_char(b);
    let next = base.push(c);
    assert(!marker_after_start(Seq::<char>::empty()));
    if b != START_MARKER {
        assert(c != byte_char(START_MARKER));
    }
    assert(!marker_after_start(next)) by {
        assert forall|i: int| 0 < i < next.len() implies next[i] != byte_char(START_MARKER) by {
            if i < base.len() {
                assert(next[i] == base[i]);
            }
        }
    }
}

/// Every completed sentence ends in a line end or holds exactly
/// `SENTENCE_CAPACITY` characters, and a held partial sentence stays under
/// that many.
pub proof fn sentences_are_bounded(acc: Seq<char>, bytes: Seq<u8>)
    requires
        acc.len() < SENTENCE_CAPACITY,
    ensures
        reassemble(acc, bytes).0.len() < SENTENCE_CAPACITY,
        forall|k: int| 0 <= k < reassemble(acc, bytes).1.len() ==> {
            let d = #[trigger] reassemble(acc, bytes).1[k];
            &&& 1 <= d.len() <= SENTENCE_CAPACITY
            &&& (d.last() == byte_char(LINE_END) || d.len() == SENTENCE_CAPACITY)
        },
    decreases bytes.len(),
{
    if bytes.len() > 0 {
        sentences_are_bounded(acc, bytes.drop_last());
    }
}

/// Feeding `chunks` one after another to the machine that holds `acc`: the
/// final accumulator and all the sentences completed, in order.
pub open spec fn feed_chunks(acc: Seq<char>, chunks: Seq<Seq<u8>>) -> (Seq<char>, Seq<Seq<char>>)
    decreases chunks.len(),
{
    if chunks.len() == 0 {
        (acc, Seq::<Seq<char>>::empty())
    } else {
        let prev = feed_chunks(acc, chunks.drop_last());
        let cur = reassemble(prev.0, chunks.last());
        (cur.0, prev.1 + cur.1)
    }
}

/// Feeding chunks one by one dispatches the same sentences, in the same
/// order, and ends in the same accumulator, as feeding the flattened stream.
pub proof fn chunked_feed_matches_whole(acc: Seq<char>, chunks: Seq<Seq<u8>>)
    ensures
        feed_chunks(acc, chunks) == reassemble(acc, chunks.flatten()),
    decreases chunks.len(),
{
    if chunks.len() == 0 {
        assert(chunks.flatten() =~= Seq::<u8>::empty());
    } else {
        let init = chunks.drop_last();
        chunked_feed_matches_whole(acc, init);
        init.lemma_flatten_push(chunks.last());
        assert(init.push(chunks.last()) =~= chunks);
        chunk_boundary_independence(acc, init.flatten(), chunks.last());
    }
}

/// The characters that `bytes` stand for.
pub open spec fn byte_chars(bytes: Seq<u8>) -> Seq<char> {
    bytes.map_values(|b: u8| byte_char(b))
}

/// Bytes that open with a start marker, hold no other marker, and hold no
/// line end before their last byte; the run is no longer than a sentence.
pub open spec fn marker_run(bytes: Seq<u8>) -> bool {
    &&& 1 <= bytes.len() <= SENTENCE_CAPACITY
    &&& bytes[0] == START_MARKER
    &&& forall|j: int| 0 < j < bytes.len() ==> bytes[j] != START_MARKER
    &&& forall|j: int| 0 <= j < bytes.len() - 1 ==> bytes[j] != LINE_END
}

/// Whatever was held before a start marker is dropped: from the marker on,
/// the accumulator holds exactly the bytes since the marker, and when the
/// run ends in a line end or reaches the capacity, the sentence dispatched
/// is exactly those bytes.
pub proof fn sentence_starts_at_marker(acc: Seq<char>, bytes: Seq<u8>)
    requires
        marker_run(bytes),
    ensures
        bytes.last() != LINE_END && bytes.len() < SENTENCE_CAPACITY ==> reassemble(acc, bytes)
            == (byte_chars(bytes), Seq::<Seq<char>>::empty()),
        bytes.last() == LINE_END || bytes.len() == SENTENCE_CAPACITY ==> reassemble(acc, bytes)
            == (Seq::<char>::empty(), seq![byte_chars(bytes)]),
    decreases bytes.len(),
{
    let init = bytes.drop_last();
    let prev = reassemble(acc, init);
    let base = if bytes.len() == 1 {
        Seq::<char>::empty()
    } else {
        byte_chars(init)
    };
    if bytes.len() == 1 {
        assert(init =~= Seq::<u8>::empty());
        assert(bytes.last() == START_MARKER);
        assert(prev == (acc, Seq::<Seq<char>>::empty()));
    } else {
        assert(bytes[bytes.len() - 1] != START_MARKER);
        assert(bytes[bytes.len() - 2] != LINE_END);
        assert(marker_run(init));
        assert(init.last() != LINE_END);
        sentence_starts_at_marker(acc, init);
        assert(prev == (byte_chars(init), Seq::<Seq<char>>::empty()));
    }
    let next = base.push(byte_char(bytes.last()));
    assert(next =~= byte_chars(bytes));
    assert(step(prev.0, bytes.last()).0 == (if bytes.last() == LINE_END || next.len()
        == SENTENCE_CAPACITY {
        Seq::<char>::empty()
    } else {
        next
    }));
    assert(seq![byte_chars(bytes)] =~= Seq::<Seq<char>>::empty().push(byte_chars(bytes)));
}

} // verus!
