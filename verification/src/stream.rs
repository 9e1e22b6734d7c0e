//! Framing of a streamed reply: bytes come in pieces of any size, and each
//! line, once its newline has come, is read as one JSON document.

use crate::json::{parse_text, parsed_text, Json, JsonView};
use crate::text::{chars_of, lossy, lossy_text, string_of, trim, trimmed};
use vstd::prelude::*;

verus! {

/// The position of the first newline in `bytes`; the length of `bytes` where
/// there is none.
pub open spec fn first_newline(bytes: Seq<u8>) -> int
    decreases bytes.len(),
{
    if bytes.len() == 0 || bytes.first() == 10u8 {
        0
    } else {
        1 + first_newline(bytes.drop_first())
    }
}

/// The first newline is where no position before has one.
pub proof fn lemma_first_newline(bytes: Seq<u8>, at: int)
    requires
        0 <= at <= bytes.len(),
        forall|k: int| 0 <= k < at ==> bytes[k] != 10u8,
        at < bytes.len() ==> bytes[at] == 10u8,
    ensures
        first_newline(bytes) == at,
    decreases bytes.len(),
{
    if bytes.len() > 0 && at > 0 {
        assert(bytes.first() == bytes[0]);
        let rest = bytes.drop_first();
        assert forall|k: int| 0 <= k < at - 1 implies rest[k] != 10u8 by {
            assert(rest[k] == bytes[k + 1]);
        }
        lemma_first_newline(rest, at - 1);
    }
}

/// The lines of `bytes` that are complete, each with its newline.
pub open spec fn complete_lines(bytes: Seq<u8>) -> Seq<Seq<u8>>
    decreases bytes.len(),
{
    let end = first_newline(bytes);
    if 0 <= end < bytes.len() {
        seq![bytes.subrange(0, end + 1)] + complete_lines(
            bytes.subrange(end + 1, bytes.len() as int),
        )
    } else {
        Seq::empty()
    }
}

/// What is left of `bytes` behind its last newline.
pub open spec fn remainder(bytes: Seq<u8>) -> Seq<u8>
    decreases bytes.len(),
{
    let end = first_newline(bytes);
    if 0 <= end < bytes.len() {
        remainder(bytes.subrange(end + 1, bytes.len() as int))
    } else {
        bytes
    }
}

/// The first newline stands where `first_newline` says, and nowhere before.
pub proof fn lemma_first_newline_is_first(bytes: Seq<u8>)
    ensures
        0 <= first_newline(bytes) <= bytes.len(),
        forall|k: int| 0 <= k < first_newline(bytes) ==> bytes[k] != 10u8,
        first_newline(bytes) < bytes.len() ==> bytes[first_newline(bytes)] == 10u8,
    decreases bytes.len(),
{
    if bytes.len() > 0 && bytes.first() != 10u8 {
        let rest = bytes.drop_first();
        lemma_first_newline_is_first(rest);
        assert forall|k: int| 0 <= k < first_newline(bytes) implies bytes[k] != 10u8 by {
            if k > 0 {
                assert(bytes[k] == rest[k - 1]);
            }
        }
        if first_newline(bytes) < bytes.len() {
            assert(bytes[first_newline(bytes)] == rest[first_newline(rest)]);
        }
    }
}

/// A stream that comes in two pieces gives the lines that the whole stream
/// gives: the lines of the first piece, then the lines of what the first
/// piece left together with the second. What is left in the end is the same
/// too. So it does not matter where a stream is cut.
pub proof fn law_pieces_give_the_lines_of_the_whole(a: Seq<u8>, b: Seq<u8>)
    ensures
        complete_lines(a + b) == complete_lines(a) + complete_lines(remainder(a) + b),
        remainder(a + b) == remainder(remainder(a) + b),
    decreases a.len(),
{
    lemma_first_newline_is_first(a);
    let end = first_newline(a);
    if end < a.len() {
        let whole = a + b;
        assert forall|k: int| 0 <= k < end implies whole[k] != 10u8 by {
            assert(whole[k] == a[k]);
        }
        assert(whole[end] == a[end]);
        lemma_first_newline(whole, end);
        let rest = a.subrange(end + 1, a.len() as int);
        assert(whole.subrange(0, end + 1) =~= a.subrange(0, end + 1));
        assert(whole.subrange(end + 1, whole.len() as int) =~= rest + b);
        law_pieces_give_the_lines_of_the_whole(rest, b);
        assert(complete_lines(a) == seq![a.subrange(0, end + 1)] + complete_lines(rest));
        assert(complete_lines(whole) == seq![a.subrange(0, end + 1)] + complete_lines(rest + b));
        assert(seq![a.subrange(0, end + 1)] + (complete_lines(rest) + complete_lines(
            remainder(rest) + b,
        )) =~= (seq![a.subrange(0, end + 1)] + complete_lines(rest)) + complete_lines(
            remainder(rest) + b,
        ));
    } else {
        assert(complete_lines(a) =~= Seq::<Seq<u8>>::empty());
        assert(Seq::<Seq<u8>>::empty() + complete_lines(a + b) =~= complete_lines(a + b));
    }
}

/// The bytes of each of a list of lines.
pub open spec fn line_views(lines: Seq<Vec<u8>>) -> Seq<Seq<u8>> {
    lines.map_values(|line: Vec<u8>| line@)
}

/// The document on a line: what the line holds as text, trimmed, read as
/// JSON. An empty line and a line that is no JSON hold none.
pub open spec fn decoded_line(line: Seq<u8>) -> Option<JsonView> {
    let text = trim(lossy(line));
    if text.len() == 0 {
        None
    } else {
        parsed_text(text)
    }
}

/// Collects the bytes of a stream and cuts them into lines.
pub struct LineFramer {
    buffer: Vec<u8>,
}

impl View for LineFramer {
    type V = Seq<u8>;

    closed spec fn view(&self) -> Seq<u8> {
        self.buffer@
    }
}

/// The bytes of `bytes` from `from` up to `to`.
pub fn copy_range(bytes: &Vec<u8>, from: usize, to: usize) -> (out: Vec<u8>)
    requires
        from <= to <= bytes.len(),
    ensures
        out@ == bytes@.subrange(from as int, to as int),
{
    let mut out: Vec<u8> = Vec::new();
    let mut i: usize = from;
    while i < to
        invariant
            from <= i <= to <= bytes.len(),
            out@ == bytes@.subrange(from as int, i as int),
        decreases to - i,
    {
        out.push(bytes[i]);
        i += 1;
        assert(out@ =~= bytes@.subrange(from as int, i as int));
    }
    out
}

impl LineFramer {
    /// A framer that holds no bytes.
    pub fn new() -> (out: LineFramer)
        ensures
            out@ == Seq::<u8>::empty(),
    {
        LineFramer { buffer: Vec::new() }
    }

    /// Takes the next piece of the stream and hands out the lines that are
    /// complete with it, in order. What stands behind the last newline is
    /// kept for the next piece.
    pub fn push(&mut self, chunk: &[u8]) -> (lines: Vec<Vec<u8>>)
        ensures
            line_views(lines@) == complete_lines(old(self)@ + chunk@),
            final(self)@ == remainder(old(self)@ + chunk@),
    {
        let mut k: usize = 0;
        while k < chunk.len()
            invariant
                k <= chunk.len(),
                self.buffer@ == old(self).buffer@ + chunk@.subrange(0, k as int),
            decreases chunk.len() - k,
        {
            self.buffer.push(chunk[k]);
            k += 1;
            assert(self.buffer@ =~= old(self).buffer@ + chunk@.subrange(0, k as int));
        }
        assert(chunk@.subrange(0, chunk.len() as int) =~= chunk@);
        let ghost all = self.buffer@;
        let mut lines: Vec<Vec<u8>> = Vec::new();
        let mut start: usize = 0;
        let mut end: usize = 0;
        assert(all.subrange(0, all.len() as int) =~= all);
        assert(line_views(lines@) =~= Seq::<Seq<u8>>::empty());
        while end < self.buffer.len()
            invariant
                self.buffer@ == all,
                start <= end <= all.len(),
                forall|j: int| start <= j < end ==> all[j] != 10u8,
                complete_lines(all) == line_views(lines@) + complete_lines(
                    all.subrange(start as int, all.len() as int),
                ),
                remainder(all) == remainder(all.subrange(start as int, all.len() as int)),
            decreases all.len() - end,
        {
            if self.buffer[end] == 10u8 {
                let line = copy_range(&self.buffer, start, end + 1);
                proof {
                    let rest = all.subrange(start as int, all.len() as int);
                    assert forall|j: int| 0 <= j < end - start implies rest[j] != 10u8 by {
                        assert(rest[j] == all[start + j]);
                    }
                    lemma_first_newline(rest, end - start);
                    assert(rest.subrange(0, end - start + 1) =~= line@);
                    assert(rest.subrange(end - start + 1, rest.len() as int) =~= all.subrange(
                        end + 1,
                        all.len() as int,
                    ));
                }
                let ghost before = lines@;
                lines.push(line);
                proof {
                    assert(line_views(lines@) =~= line_views(before).push(line@));
                    assert(line_views(before).push(line@) + complete_lines(
                        all.subrange(end + 1, all.len() as int),
                    ) =~= line_views(before) + (seq![line@] + complete_lines(
                        all.subrange(end + 1, all.len() as int),
                    )));
                }
                start = end + 1;
            }
            end += 1;
        }
        proof {
            let rest = all.subrange(start as int, all.len() as int);
            assert forall|j: int| 0 <= j < rest.len() implies rest[j] != 10u8 by {
                assert(rest[j] == all[start + j]);
            }
            lemma_first_newline(rest, rest.len() as int);
            assert(line_views(lines@) + Seq::<Seq<u8>>::empty() =~= line_views(lines@));
        }
        let kept = copy_range(&self.buffer, start, self.buffer.len());
        self.buffer = kept;
        lines
    }
}

/// Reads the document on a line.
pub fn decode_line(line: &Vec<u8>) -> (out: Option<Json>)
    ensures
        match decoded_line(line@) {
            Some(tree) => out matches Some(found) && found@ == tree,
            None => out is None,
        },
{
    let text = lossy_text(line);
    let bare = trimmed(&chars_of(text.as_str()));
    if bare.len() == 0 {
        return None;
    }
    let shown = string_of(&bare);
    match parse_text(shown.as_str()) {
        Ok(tree) => Some(tree),
        Err(_) => None,
    }
}

} // verus!
