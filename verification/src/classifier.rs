//! Finding pairing codes in a stream of output lines.
//!
//! A pairing code is drawn with block characters, line under line. The
//! classifier collects each run of such lines and hands it out as a block
//! when the run ends, if the run has the size and the shape of a code.
//! Banners and progress bars use the same characters, and do not.

use crate::replies::texts;
use crate::text::{chars_of, extend_chars, owned, string_of};
use vstd::prelude::*;

verus! {

/// What a run of lines must measure to count as a pairing code. The ratio of
/// rows to columns is given in tenths.
#[derive(Clone, Copy, Debug, PartialEq, Eq, Structural)]
pub struct Thresholds {
    pub min_rows: usize,
    pub min_cols: usize,
    pub min_ratio_tenths: usize,
    pub max_ratio_tenths: usize,
}

/// A pairing code: its lines joined by newlines, and its measures.
#[derive(Debug, PartialEq, Eq)]
pub struct PairingBlock {
    pub data: String,
    pub rows: usize,
    pub cols: usize,
}

/// The model of a [`PairingBlock`].
pub struct PairingBlockView {
    pub data: Seq<char>,
    pub rows: nat,
    pub cols: nat,
}

impl View for PairingBlock {
    type V = PairingBlockView;

    open spec fn view(&self) -> PairingBlockView {
        PairingBlockView { data: self.data@, rows: self.rows as nat, cols: self.cols as nat }
    }
}

/// The model of a [`StreamClassifier`].
pub struct ClassifierState {
    pub thresholds: Thresholds,
    /// Whether a run of glyph lines is being collected.
    pub accumulating: bool,
    /// The lines of the run, in order.
    pub buffer: Seq<Seq<char>>,
}

/// The thresholds in use: at least ten rows and ten columns, and between
/// 0.3 and 3 rows to a column.
pub open spec fn canonical_thresholds() -> Thresholds {
    Thresholds { min_rows: 10, min_cols: 10, min_ratio_tenths: 3, max_ratio_tenths: 30 }
}

/// Whether `c` is one of the characters that codes are drawn with: the full
/// block, the upper and the lower half block, and the three shades.
pub open spec fn is_glyph(c: char) -> bool {
    c == '\u{2588}' || c == '\u{2584}' || c == '\u{2580}' || c == '\u{2591}' || c == '\u{2592}'
        || c == '\u{2593}'
}

/// Whether a line holds at least one glyph.
pub open spec fn is_glyph_line(line: Seq<char>) -> bool {
    exists|i: int| 0 <= i < line.len() && is_glyph(#[trigger] line[i])
}

/// The number of characters of the longest line.
pub open spec fn max_width(lines: Seq<Seq<char>>) -> nat
    decreases lines.len(),
{
    if lines.len() == 0 {
        0
    } else if max_width(lines.drop_last()) >= lines.last().len() {
        max_width(lines.drop_last())
    } else {
        lines.last().len()
    }
}

/// The lines, with a newline between each two.
pub open spec fn joined_lines(lines: Seq<Seq<char>>) -> Seq<char>
    decreases lines.len(),
{
    if lines.len() == 0 {
        Seq::empty()
    } else if lines.len() == 1 {
        lines.last()
    } else {
        joined_lines(lines.drop_last()) + seq!['\n'] + lines.last()
    }
}

/// Whether a run of `rows` lines, the longest `cols` characters wide, has
/// the size and the shape of a pairing code.
pub open spec fn passes(t: Thresholds, rows: nat, cols: nat) -> bool {
    &&& rows >= t.min_rows
    &&& cols >= t.min_cols
    &&& 10 * rows >= t.min_ratio_tenths * cols
    &&& 10 * rows <= t.max_ratio_tenths * cols
}

/// The block that a run of lines makes, if it makes one.
pub open spec fn block_of(t: Thresholds, lines: Seq<Seq<char>>) -> Option<PairingBlockView> {
    if passes(t, lines.len(), max_width(lines)) {
        Some(
            PairingBlockView {
                data: joined_lines(lines),
                rows: lines.len(),
                cols: max_width(lines),
            },
        )
    } else {
        None
    }
}

/// The classifier before the first line.
pub open spec fn scanning(t: Thresholds) -> ClassifierState {
    ClassifierState { thresholds: t, accumulating: false, buffer: Seq::empty() }
}

/// The state after a line. A glyph line starts a run or goes on with it; any
/// other line ends the run, and is itself part of no block.
pub open spec fn after_line(s: ClassifierState, line: Seq<char>) -> ClassifierState {
    if is_glyph_line(line) {
        ClassifierState {
            accumulating: true,
            buffer: if s.accumulating {
                s.buffer.push(line)
            } else {
                seq![line]
            },
            ..s
        }
    } else {
        scanning(s.thresholds)
    }
}

/// The block that a line brings out: the run that it ends, if that run has
/// the size and the shape of a code.
pub open spec fn emitted_by(s: ClassifierState, line: Seq<char>) -> Option<PairingBlockView> {
    if !is_glyph_line(line) && s.accumulating {
        block_of(s.thresholds, s.buffer)
    } else {
        None
    }
}

/// The block that the end of the stream brings out.
pub open spec fn emitted_at_end(s: ClassifierState) -> Option<PairingBlockView> {
    if s.accumulating {
        block_of(s.thresholds, s.buffer)
    } else {
        None
    }
}

/// The state after a row of lines.
pub open spec fn after_lines(s: ClassifierState, lines: Seq<Seq<char>>) -> ClassifierState
    decreases lines.len(),
{
    if lines.len() == 0 {
        s
    } else {
        after_line(after_lines(s, lines.drop_last()), lines.last())
    }
}

/// A run of glyph lines that starts while the classifier is scanning brings
/// out nothing while it lasts, and the line that ends it brings out the
/// block of exactly these lines, if they make one.
pub proof fn law_run_is_emitted_once(t: Thresholds, lines: Seq<Seq<char>>, end: Seq<char>)
    requires
        lines.len() > 0,
        forall|i: int| 0 <= i < lines.len() ==> is_glyph_line(#[trigger] lines[i]),
        !is_glyph_line(end),
    ensures
        forall|n: int|
            0 <= n < lines.len() ==> emitted_by(
                #[trigger] after_lines(scanning(t), lines.subrange(0, n)),
                lines[n],
            ) is None,
        after_lines(scanning(t), lines) == (ClassifierState {
            thresholds: t,
            accumulating: true,
            buffer: lines,
        }),
        emitted_by(after_lines(scanning(t), lines), end) == block_of(t, lines),
        after_line(after_lines(scanning(t), lines), end) == scanning(t),
    decreases lines.len(),
{
    let front = lines.drop_last();
    if front.len() == 0 {
        assert(after_lines(scanning(t), front) == scanning(t));
        assert(seq![lines.last()] =~= lines);
    } else {
        law_run_is_emitted_once(t, front, end);
        assert(front.push(lines.last()) =~= lines);
    }
}

/// Whether a run has the size and the shape of a pairing code.
pub fn measures_pass(t: &Thresholds, rows: usize, cols: usize) -> (b: bool)
    ensures
        b == passes(*t, rows as nat, cols as nat),
{
    if rows < t.min_rows || cols < t.min_cols {
        return false;
    }
    let scaled: u128 = (rows as u128) * 10;
    let low: u128 = product(t.min_ratio_tenths, cols);
    let high: u128 = product(t.max_ratio_tenths, cols);
    scaled >= low && scaled <= high
}

/// The product of two sizes.
pub fn product(a: usize, b: usize) -> (out: u128)
    ensures
        out == a * b,
{
    assert(a * b <= 0xFFFF_FFFF_FFFF_FFFF * 0xFFFF_FFFF_FFFF_FFFF) by (nonlinear_arith)
        requires
            a <= 0xFFFF_FFFF_FFFF_FFFF,
            b <= 0xFFFF_FFFF_FFFF_FFFF,
    ;
    (a as u128) * (b as u128)
}

/// Whether a line holds at least one glyph.
pub fn holds_glyph(line: &Vec<char>) -> (b: bool)
    ensures
        b == is_glyph_line(line@),
{
    let mut i: usize = 0;
    while i < line.len()
        invariant
            i <= line.len(),
            forall|j: int| 0 <= j < i ==> !is_glyph(#[trigger] line@[j]),
        decreases line.len() - i,
    {
        let c = line[i];
        if c == '\u{2588}' || c == '\u{2584}' || c == '\u{2580}' || c == '\u{2591}' || c
            == '\u{2592}' || c == '\u{2593}' {
            assert(is_glyph(line@[i as int]));
            return true;
        }
        i += 1;
    }
    false
}

/// The block that a run of lines makes, if it makes one.
pub fn make_block(t: &Thresholds, lines: &Vec<String>) -> (out: Option<PairingBlock>)
    ensures
        match block_of(*t, texts(lines@)) {
            Some(block) => out matches Some(made) && made@ == block,
            None => out is None,
        },
{
    let mut data: Vec<char> = Vec::new();
    let mut cols: usize = 0;
    let mut i: usize = 0;
    assert(texts(lines@).subrange(0, 0) =~= Seq::<Seq<char>>::empty());
    while i < lines.len()
        invariant
            i <= lines.len(),
            cols == max_width(texts(lines@).subrange(0, i as int)),
            data@ == joined_lines(texts(lines@).subrange(0, i as int)),
        decreases lines.len() - i,
    {
        let line = chars_of(lines[i].as_str());
        proof {
            let longer = texts(lines@).subrange(0, i + 1);
            assert(longer.drop_last() =~= texts(lines@).subrange(0, i as int));
            assert(longer.last() == line@);
            if i == 0 {
                assert(Seq::<char>::empty() + line@ =~= line@);
            }
        }
        if i > 0 {
            data.push('\n');
        }
        let ghost before = data@;
        extend_chars(&mut data, &line);
        if line.len() > cols {
            cols = line.len();
        }
        proof {
            if i > 0 {
                assert(data@ =~= joined_lines(texts(lines@).subrange(0, i as int)) + seq!['\n']
                    + line@);
            }
        }
        i += 1;
    }
    assert(texts(lines@).subrange(0, lines.len() as int) =~= texts(lines@));
    if measures_pass(t, lines.len(), cols) {
        Some(PairingBlock { data: string_of(&data), rows: lines.len(), cols })
    } else {
        None
    }
}

/// Watches one stream of lines for pairing codes.
pub struct StreamClassifier {
    thresholds: Thresholds,
    accumulating: bool,
    buffer: Vec<String>,
}

impl View for StreamClassifier {
    type V = ClassifierState;

    closed spec fn view(&self) -> ClassifierState {
        ClassifierState {
            thresholds: self.thresholds,
            accumulating: self.accumulating,
            buffer: texts(self.buffer@),
        }
    }
}

impl Thresholds {
    /// The thresholds in use.
    pub fn canonical() -> (t: Thresholds)
        ensures
            t == canonical_thresholds(),
    {
        Thresholds { min_rows: 10, min_cols: 10, min_ratio_tenths: 3, max_ratio_tenths: 30 }
    }
}

impl StreamClassifier {
    /// A classifier that scans, with the thresholds in use.
    pub fn new() -> (out: StreamClassifier)
        ensures
            out@ == scanning(canonical_thresholds()),
    {
        StreamClassifier::with_thresholds(Thresholds::canonical())
    }

    /// A classifier that scans, with thresholds of the caller's choice.
    pub fn with_thresholds(thresholds: Thresholds) -> (out: StreamClassifier)
        ensures
            out@ == scanning(thresholds),
    {
        let out = StreamClassifier { thresholds, accumulating: false, buffer: Vec::new() };
        assert(texts(out.buffer@) =~= Seq::<Seq<char>>::empty());
        out
    }

    /// Whether a run of glyph lines is being collected.
    pub fn is_accumulating(&self) -> (b: bool)
        ensures
            b == self@.accumulating,
    {
        self.accumulating
    }

    /// Takes the next line of the stream, and hands out the block that it
    /// completes, if it completes one.
    pub fn feed(&mut self, line: &str) -> (out: Option<PairingBlock>)
        ensures
            final(self)@ == after_line(old(self)@, line@),
            match emitted_by(old(self)@, line@) {
                Some(block) => out matches Some(made) && made@ == block,
                None => out is None,
            },
    {
        let chars = chars_of(line);
        if holds_glyph(&chars) {
            if !self.accumulating {
                self.accumulating = true;
                self.buffer.clear();
            }
            let ghost before = self.buffer@;
            self.buffer.push(owned(line));
            assert(texts(self.buffer@) =~= texts(before).push(line@));
            assert(texts(Seq::<String>::empty()).push(line@) =~= seq![line@]);
            None
        } else if self.accumulating {
            let out = make_block(&self.thresholds, &self.buffer);
            self.accumulating = false;
            self.buffer.clear();
            assert(texts(self.buffer@) =~= Seq::<Seq<char>>::empty());
            out
        } else {
            self.buffer.clear();
            assert(texts(self.buffer@) =~= Seq::<Seq<char>>::empty());
            None
        }
    }

    /// Takes the end of the stream, and hands out the block that was being
    /// collected, if it is one. The classifier scans again afterwards.
    pub fn finish(&mut self) -> (out: Option<PairingBlock>)
        ensures
            final(self)@ == scanning(old(self)@.thresholds),
            match emitted_at_end(old(self)@) {
                Some(block) => out matches Some(made) && made@ == block,
                None => out is None,
            },
    {
        let out = if self.accumulating {
            make_block(&self.thresholds, &self.buffer)
        } else {
            None
        };
        self.accumulating = false;
        self.buffer.clear();
        assert(texts(self.buffer@) =~= Seq::<Seq<char>>::empty());
        out
    }
}

} // verus!
