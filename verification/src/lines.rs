//! Line-delimited wire mode: a client's byte stream is cut at terminator
//! bytes and every complete line is delivered whole, terminator stripped.
//! Bytes after the last terminator stay buffered; when the client
//! disconnects they form an unterminated partial line, which the reader
//! discards.

use vstd::prelude::*;

verus! {

/// The line terminator byte (ASCII line feed).
pub const TERMINATOR: u8 = 10;

/// The complete lines of `s`: the terminator-free runs before each
/// terminator byte, in stream order. Bytes after the last terminator
/// belong to no line.
pub open spec fn split_lines(s: Seq<u8>) -> Seq<Seq<u8>>
    decreases s.len(),
{
    if s.len() == 0 {
        seq![]
    } else if s.last() == TERMINATOR {
        split_lines(s.drop_last()).push(line_rest(s.drop_last()))
    } else {
        split_lines(s.drop_last())
    }
}

/// The bytes of `s` after its last terminator: the unterminated partial
/// line at the end of the stream.
pub open spec fn line_rest(s: Seq<u8>) -> Seq<u8>
    decreases s.len(),
{
    if s.len() == 0 {
        seq![]
    } else if s.last() == TERMINATOR {
        seq![]
    } else {
        line_rest(s.drop_last()).push(s.last())
    }
}

/// Whether `s` holds no terminator byte.
pub open spec fn terminator_free(s: Seq<u8>) -> bool {
    forall|i: int| 0 <= i < s.len() ==> s[i] != TERMINATOR
}

/// The partial line after the last terminator holds no terminator itself.
pub proof fn lemma_line_rest_terminator_free(s: Seq<u8>)
    ensures
        terminator_free(line_rest(s)),
    decreases s.len(),
{
    if s.len() > 0 && s.last() != TERMINATOR {
        lemma_line_rest_terminator_free(s.drop_last());
    }
}

/// A terminator-free stream completes no line and stays pending whole.
pub proof fn lemma_terminator_free_pending(s: Seq<u8>)
    requires
        terminator_free(s),
    ensures
        split_lines(s) == Seq::<Seq<u8>>::empty(),
        line_rest(s) == s,
    decreases s.len(),
{
    if s.len() > 0 {
        assert(forall|i: int| 0 <= i < s.drop_last().len() ==> s.drop_last()[i] == s[i]);
        lemma_terminator_free_pending(s.drop_last());
        assert(line_rest(s.drop_last()).push(s.last()) =~= s);
    }
}

/// Cutting a stream into chunks does not change its lines: the lines of
/// `a + b` are the lines completed within `a` followed by the lines that
/// `b` completes out of `a`'s own partial line and `b`. Message order is
/// therefore preserved whatever the read-chunk boundaries were.
pub proof fn lemma_lines_chunking(a: Seq<u8>, b: Seq<u8>)
    ensures
        split_lines(a + b) == split_lines(a) + split_lines(line_rest(a) + b),
        line_rest(a + b) == line_rest(line_rest(a) + b),
    decreases b.len(),
{
    lemma_line_rest_terminator_free(a);
    if b.len() == 0 {
        assert(a + b =~= a);
        lemma_terminator_free_pending(line_rest(a));
        assert(line_rest(a) + b =~= line_rest(a));
        assert(split_lines(a) + split_lines(line_rest(a)) =~= split_lines(a));
    } else {
        let bp = b.drop_last();
        let x = b.last();
        lemma_lines_chunking(a, bp);
        assert(a + b =~= (a + bp).push(x));
        assert(line_rest(a) + b =~= (line_rest(a) + bp).push(x));
        assert((a + bp).push(x).drop_last() =~= a + bp);
        assert((line_rest(a) + bp).push(x).drop_last() =~= line_rest(a) + bp);
        if x == TERMINATOR {
            assert(split_lines(a + b) == split_lines(a + bp).push(line_rest(a + bp)));
            assert(split_lines(line_rest(a) + b) == split_lines(line_rest(a) + bp).push(
                line_rest(line_rest(a) + bp),
            ));
            assert(split_lines(a) + split_lines(line_rest(a) + b) =~= (split_lines(a)
                + split_lines(line_rest(a) + bp)).push(line_rest(line_rest(a) + bp)));
        } else {
            assert(split_lines(a + b) == split_lines(a + bp));
            assert(split_lines(line_rest(a) + b) == split_lines(line_rest(a) + bp));
            assert(line_rest(a + b) == line_rest(a + bp).push(x));
            assert(line_rest(line_rest(a) + b) == line_rest(line_rest(a) + bp).push(x));
        }
    }
}

/// The lines completed by feeding `chunks` one at a time into a splitter
/// whose buffer holds `pending`: what each push hands back, concatenated
/// in push order.
pub open spec fn chunked_lines(pending: Seq<u8>, chunks: Seq<Seq<u8>>) -> Seq<Seq<u8>>
    decreases chunks.len(),
{
    if chunks.len() == 0 {
        seq![]
    } else {
        split_lines(pending + chunks.first()) + chunked_lines(
            line_rest(pending + chunks.first()),
            chunks.drop_first(),
        )
    }
}

/// The splitter's buffer after feeding `chunks` one at a time.
pub open spec fn chunked_rest(pending: Seq<u8>, chunks: Seq<Seq<u8>>) -> Seq<u8>
    decreases chunks.len(),
{
    if chunks.len() == 0 {
        pending
    } else {
        chunked_rest(line_rest(pending + chunks.first()), chunks.drop_first())
    }
}

/// A client's lines do not depend on how its stream was cut into reads:
/// feeding the chunks one at a time — as the reader's successive pushes
/// do — completes exactly the lines of their concatenation, in order,
/// and buffers exactly the concatenation's own trailing partial line.
pub proof fn lemma_chunked_stream_lines(pending: Seq<u8>, chunks: Seq<Seq<u8>>)
    requires
        terminator_free(pending),
    ensures
        chunked_lines(pending, chunks) == split_lines(pending + chunks.flatten()),
        chunked_rest(pending, chunks) == line_rest(pending + chunks.flatten()),
    decreases chunks.len(),
{
    if chunks.len() == 0 {
        lemma_terminator_free_pending(pending);
        assert(pending + chunks.flatten() =~= pending);
        assert(chunked_lines(pending, chunks) =~= split_lines(pending));
    } else {
        let c = chunks.first();
        let rest = chunks.drop_first();
        lemma_line_rest_terminator_free(pending + c);
        lemma_chunked_stream_lines(line_rest(pending + c), rest);
        lemma_lines_chunking(pending + c, rest.flatten());
        assert((pending + c) + rest.flatten() =~= pending + chunks.flatten());
    }
}

/// The views of a vector of byte vectors.
pub open spec fn views_of(lines: Seq<Vec<u8>>) -> Seq<Seq<u8>> {
    lines.map_values(|l: Vec<u8>| l@)
}

/// Buffers one client's stream and hands back each line the moment its
/// terminator arrives.
pub struct LineSplitter {
    pending: Vec<u8>,
}

impl LineSplitter {
    /// The buffered partial line.
    pub closed spec fn pending(&self) -> Seq<u8> {
        self.pending@
    }

    /// The buffer never holds a terminator: a terminator always completes
    /// a line at once.
    pub open spec fn wf(&self) -> bool {
        terminator_free(self.pending())
    }

    pub fn new() -> (s: Self)
        ensures
            s.wf(),
            s.pending() == Seq::<u8>::empty(),
    {
        LineSplitter { pending: Vec::new() }
    }

    /// Feed the next read chunk; returns the lines it completes, in order.
    pub fn push(&mut self, data: &[u8]) -> (lines: Vec<Vec<u8>>)
        requires
            old(self).wf(),
        ensures
            final(self).wf(),
            views_of(lines@) == split_lines(old(self).pending() + data@),
            final(self).pending() == line_rest(old(self).pending() + data@),
    {
        let mut lines: Vec<Vec<u8>> = Vec::new();
        let mut i: usize = 0;
        proof {
            assert(old(self).pending() + data@.take(0) =~= old(self).pending());
            lemma_terminator_free_pending(old(self).pending());
            assert(views_of(lines@) =~= Seq::<Seq<u8>>::empty());
        }
        while i < data.len()
            invariant
                0 <= i <= data@.len(),
                terminator_free(self.pending@),
                views_of(lines@) == split_lines(old(self).pending() + data@.take(i as int)),
                self.pending@ == line_rest(old(self).pending() + data@.take(i as int)),
            decreases data@.len() - i,
        {
            let ghost seen: Seq<u8> = old(self).pending() + data@.take(i as int);
            let b = data[i];
            proof {
                assert(old(self).pending() + data@.take(i as int + 1) =~= seen.push(b));
                assert(seen.push(b).drop_last() =~= seen);
            }
            if b == TERMINATOR {
                let mut full: Vec<u8> = Vec::new();
                core::mem::swap(&mut self.pending, &mut full);
                lines.push(full);
                proof {
                    assert(views_of(lines@) =~= split_lines(seen).push(line_rest(seen)));
                }
            } else {
                self.pending.push(b);
            }
            i += 1;
        }
        proof {
            assert(old(self).pending() + data@.take(data@.len() as int) =~= old(self).pending()
                + data@);
        }
        lines
    }

    /// Give back the unterminated partial line and leave the splitter
    /// empty. Called on disconnect; the reader discards the result.
    pub fn take_partial(&mut self) -> (rest: Vec<u8>)
        ensures
            final(self).wf(),
            rest@ == old(self).pending(),
            final(self).pending() == Seq::<u8>::empty(),
    {
        let mut rest: Vec<u8> = Vec::new();
        core::mem::swap(&mut self.pending, &mut rest);
        rest
    }
}

/// Error for a line that is not valid UTF-8; it is reported for that line
/// alone and never ends the connection.
#[derive(Clone, Copy, PartialEq, Eq, Structural, Debug)]
pub struct DecodeError;

/// Relies on `String::from_utf8`: it succeeds exactly on valid UTF-8 and
/// returns its decoding.
#[verifier::external_body]
fn bytes_to_string(bytes: Vec<u8>) -> (r: Option<String>)
    ensures
        r is Some <==> vstd::utf8::valid_utf8(bytes@),
        r matches Some(s) ==> s@ == vstd::utf8::decode_utf8(bytes@),
{
    match String::from_utf8(bytes) {
        Ok(s) => Some(s),
        Err(_) => None,
    }
}

/// Relies on `str::from_utf8`: it succeeds exactly on valid UTF-8.
#[verifier::external_body]
pub(crate) fn utf8_ok(bytes: &[u8]) -> (b: bool)
    ensures
        b == vstd::utf8::valid_utf8(bytes@),
{
    core::str::from_utf8(bytes).is_ok()
}

/// Decode one complete line as UTF-8. A malformed line yields a decoding
/// error, distinct from any transport error.
pub fn decode_line(line: Vec<u8>) -> (r: Result<String, DecodeError>)
    ensures
        r is Ok <==> vstd::utf8::valid_utf8(line@),
        r matches Ok(s) ==> s@ == vstd::utf8::decode_utf8(line@),
{
    match bytes_to_string(line) {
        Some(s) => Ok(s),
        None => Err(DecodeError),
    }
}

} // verus!
