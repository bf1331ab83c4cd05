//! Cycling through completion candidates and splicing one into the input line.
use crate::buffer::{insert_str_model, truncate_model, InputBuffer};
use crate::keys::rows_to_clear;
use crate::redraw::{is_overwrite, lines_covered, lines_covered_spec, overwrite_text, TermOp};
use vstd::prelude::*;
use vstd::string::StringExecFns;

verus! {

/// A completion candidate: the text to write and the character offset in the
/// line from which it replaces the rest.
pub struct CItem {
    pub matchstr: String,
    pub input_chpos: usize,
}

/// The index after `idx` among `n` candidates, wrapping to the first.
pub open spec fn next_index(idx: nat, n: nat) -> nat {
    if idx + 1 >= n {
        0
    } else {
        idx + 1
    }
}

/// The index after advancing `k` times from `idx` among `n` candidates.
pub open spec fn advance(idx: nat, n: nat, k: nat) -> nat
    decreases k,
{
    if k == 0 {
        idx
    } else {
        next_index(advance(idx, n, (k - 1) as nat), n)
    }
}

/// The candidates of one completion request, the one currently offered, and the
/// line as it read after the last completion was written into it.
pub struct CompletionWriter {
    input_line: String,
    completions: Vec<CItem>,
    completion_idx: usize,
}

impl CompletionWriter {
    /// The line as it read right after the last completion was written.
    pub closed spec fn snapshot(&self) -> Seq<char> {
        self.input_line@
    }

    pub closed spec fn candidates(&self) -> Seq<CItem> {
        self.completions@
    }

    /// Index of the candidate offered next.
    pub closed spec fn index(&self) -> nat {
        self.completion_idx as nat
    }

    /// The index points at a candidate, or is zero.
    pub open spec fn wf(&self) -> bool {
        self.index() == 0 || self.index() < self.candidates().len()
    }

    pub fn new() -> (r: Self)
        ensures
            r.wf(),
            r.snapshot() == Seq::<char>::empty(),
            r.candidates() == Seq::<CItem>::empty(),
            r.index() == 0,
    {
        CompletionWriter { input_line: String::new(), completions: Vec::new(), completion_idx: 0 }
    }

    /// Whether `line` is still the line that the last completion produced.
    pub fn is_same_input(&self, line: &str) -> (r: bool)
        ensures
            r == (self.snapshot() == line@),
    {
        let other = String::from_str(line);
        self.input_line == other
    }

    /// Offers the next candidate, wrapping to the first after the last.
    pub fn next_completion(&mut self)
        requires
            old(self).wf(),
        ensures
            final(self).wf(),
            final(self).snapshot() == old(self).snapshot(),
            final(self).candidates() == old(self).candidates(),
            final(self).index() == next_index(old(self).index(), old(self).candidates().len()),
            old(self).candidates().len() == 0 ==> final(self).index() == old(self).index(),
    {
        let n = self.completions.len();
        let idx = self.completion_idx + 1;
        let idx = if idx >= n {
            0
        } else {
            idx
        };
        self.completion_idx = idx;
    }

    /// Replaces the candidates and offers the first.
    pub fn new_completions(&mut self, completions: Vec<CItem>)
        ensures
            final(self).wf(),
            final(self).snapshot() == old(self).snapshot(),
            final(self).candidates() == completions@,
            final(self).index() == 0,
    {
        self.completions = completions;
        self.completion_idx = 0;
    }

    /// Writes the offered candidate, if any, into `buf`: the line is cut at the
    /// candidate's offset and its text inserted at the cursor. Returns the writes
    /// that redraw the line, which starts at column `initial.0` of a terminal
    /// `width` wide, and records the new line for `is_same_input`.
    pub fn overwrite_completion(&mut self, initial: (u16, u16), width: usize, buf: &mut InputBuffer) -> (r: Vec<TermOp>)
        requires
            old(self).wf(),
            old(buf).wf(),
            width > 0,
            old(buf).text().len() < usize::MAX,
            initial.0 < u16::MAX,
        ensures
            final(self).wf(),
            final(buf).wf(),
            final(self).candidates() == old(self).candidates(),
            final(self).index() == old(self).index(),
            old(self).index() < old(self).candidates().len() ==> {
                let c = old(self).candidates()[old(self).index() as int];
                let (t1, p1) = truncate_model(old(buf).text(), old(buf).cursor(), c.input_chpos as nat);
                let (t2, p2) = insert_str_model(t1, p1, c.matchstr@);
                let prev = lines_covered_spec(initial.0 as nat, width as nat, old(buf).text().len());
                &&& final(buf).state() == (t2, p2)
                &&& final(self).snapshot() == t2
                &&& is_overwrite(r@, (initial.0 + 1) as u16, rows_to_clear(prev), t2)
            },
            old(self).index() >= old(self).candidates().len() ==> {
                &&& *final(buf) == *old(buf)
                &&& final(self).snapshot() == old(self).snapshot()
                &&& r@.len() == 0
            },
    {
        let idx = self.completion_idx;
        if idx < self.completions.len() {
            let prev = lines_covered(initial.0 as usize, width, buf.ch_len());
            buf.truncate(self.completions[idx].input_chpos);
            buf.insert_str(self.completions[idx].matchstr.as_str());
            let text = buf.buffer();
            let rows = if prev >= 1 { prev - 1 } else { 0 };
            let ops = overwrite_text(initial.0 + 1, rows as u16, text.as_str());
            self.input_line = text;
            ops
        } else {
            Vec::new()
        }
    }
}

impl Default for CompletionWriter {
    fn default() -> (r: Self)
        ensures
            r.wf(),
            r.snapshot() == Seq::<char>::empty(),
            r.candidates() == Seq::<CItem>::empty(),
            r.index() == 0,
    {
        CompletionWriter::new()
    }
}

/// Advancing `n` times through `n` candidates comes back to the index it
/// started from.
pub proof fn lemma_cycle_returns(idx: nat, n: nat)
    requires
        idx < n,
    ensures
        advance(idx, n, n) == idx,
{
    lemma_advance_mod(idx, n, n);
    assert((idx as int + n as int) % (n as int) == idx) by (nonlinear_arith)
        requires idx < n;
}

proof fn lemma_advance_mod(idx: nat, n: nat, k: nat)
    requires
        idx < n,
    ensures
        advance(idx, n, k) == (idx as int + k as int) % (n as int),
    decreases k,
{
    if k == 0 {
        assert((idx as int) % (n as int) == idx) by (nonlinear_arith)
            requires idx < n;
    } else {
        lemma_advance_mod(idx, n, (k - 1) as nat);
        let m = (idx as int + k as int - 1) % (n as int);
        assert((idx as int + k as int) % (n as int) == if m + 1 == n { 0 } else { m + 1 }) by (nonlinear_arith)
            requires m == (idx as int + k as int - 1) % (n as int), n > 0, idx + k >= 1;
    }
}

/// A line that differs from the one the last completion produced fails the
/// staleness check, so stale candidates are never written over it.
pub proof fn lemma_diverged_line_is_stale(w: CompletionWriter, written: InputBuffer, edited: InputBuffer)
    requires
        w.snapshot() == written.text(),
        edited.text() != written.text(),
    ensures
        w.snapshot() != edited.text(),
{
}

} // verus!
