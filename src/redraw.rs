//! Row-span arithmetic and the terminal operations that redraw text in place.
use vstd::prelude::*;
use vstd::string::StrSliceExecFns;

verus! {

/// Number of terminal rows that `ch_count` characters occupy when the first one
/// is placed at column `starting` of a row `width` cells wide.
pub open spec fn lines_covered_spec(starting: nat, width: nat, ch_count: nat) -> nat
    recommends
        width > 0,
{
    if ch_count == 0 {
        0
    } else {
        let lines = ch_count / width + 1;
        let md = ch_count % width;
        let room = if starting >= width { 0 } else { (width - starting) as nat };
        if md > room {
            lines + 1
        } else if md == 0 && starting == 0 {
            // the run ends exactly on a row boundary
            (lines - 1) as nat
        } else {
            lines
        }
    }
}

/// Determines the number of lines a text will cover, from the starting position
/// and a given cell width. A zero width is a caller error.
pub fn lines_covered(starting: usize, width: usize, ch_count: usize) -> (r: usize)
    requires
        width > 0,
        ch_count < usize::MAX,
    ensures
        r == lines_covered_spec(starting as nat, width as nat, ch_count as nat),
{
    if ch_count == 0 {
        return 0;
    }
    assert(ch_count / width <= ch_count) by (nonlinear_arith)
        requires width > 0;
    assert(width >= 2 ==> ch_count / width < usize::MAX - 1) by (nonlinear_arith)
        requires width > 0, ch_count < usize::MAX;
    assert(width == 1 ==> ch_count % width == 0) by (nonlinear_arith)
        requires width > 0;
    let lines = ch_count / width + 1;
    let md = ch_count % width;
    if md > width.saturating_sub(starting) {
        lines + 1
    } else if md == 0 && starting == 0 {
        lines - 1
    } else {
        lines
    }
}

/// One primitive write to the terminal.
#[derive(Debug, PartialEq, Eq)]
pub enum TermOp {
    /// Clear the row the cursor is on.
    ClearCurrentLine,
    /// Clear from the cursor to the end of its row.
    ClearUntilNewLine,
    /// Move the cursor up by the given number of rows.
    MoveUp(u16),
    /// Move the cursor to the given column of its row.
    MoveToColumn(u16),
    /// Print text at the cursor.
    Print(String),
    /// Print a line break.
    NewLine,
}

/// A change to the output line that streamed output produces.
#[derive(Debug, PartialEq, Eq)]
pub enum OutputChange {
    /// The current line now reads this text.
    CurrentLine(String),
    /// The current line is finished; output continues on a new one.
    NewLine,
}

/// `n` repetitions of clearing a row and moving up one.
pub open spec fn clear_rows_up(n: nat) -> Seq<TermOp>
    decreases n,
{
    if n == 0 {
        Seq::empty()
    } else {
        clear_rows_up((n - 1) as nat) + seq![TermOp::ClearCurrentLine, TermOp::MoveUp(1)]
    }
}

fn push_clear_rows_up(ops: &mut Vec<TermOp>, n: u16)
    ensures
        final(ops)@ == old(ops)@ + clear_rows_up(n as nat),
{
    let ghost start = ops@;
    let mut i: u16 = 0;
    while i < n
        invariant
            i <= n,
            ops@ == start + clear_rows_up(i as nat),
        decreases n - i,
    {
        ops.push(TermOp::ClearCurrentLine);
        ops.push(TermOp::MoveUp(1));
        i = i + 1;
        assert(ops@ =~= start + clear_rows_up(i as nat));
    }
}

/// `ops` erases `rows` rows above the cursor, clearing each, then prints `text`
/// from column `initialx` of the top one.
pub open spec fn is_overwrite(ops: Seq<TermOp>, initialx: u16, rows: u16, text: Seq<char>) -> bool {
    let k = clear_rows_up(rows as nat).len() as int;
    &&& ops.len() == k + 3
    &&& ops.subrange(0, k) == clear_rows_up(rows as nat)
    &&& ops[k] == TermOp::MoveToColumn(initialx)
    &&& ops[k + 1] == TermOp::ClearUntilNewLine
    &&& ops[k + 2] matches TermOp::Print(t) && t@ == text
}

/// Clears the rows a previous render covered and writes `text` in their place.
pub fn overwrite_text(initialx: u16, lines_covered: u16, text: &str) -> (r: Vec<TermOp>)
    ensures
        is_overwrite(r@, initialx, lines_covered, text@),
{
    let mut ops: Vec<TermOp> = Vec::new();
    push_clear_rows_up(&mut ops, lines_covered);
    ops.push(TermOp::MoveToColumn(initialx));
    ops.push(TermOp::ClearUntilNewLine);
    ops.push(TermOp::Print(String::from_str(text)));
    assert(ops@.subrange(0, clear_rows_up(lines_covered as nat).len() as int) =~= clear_rows_up(
        lines_covered as nat,
    ));
    ops
}

/// The writes that clear the current row and put the cursor at its start.
pub fn erase_current_line() -> (r: Vec<TermOp>)
    ensures
        r@ == seq![TermOp::ClearCurrentLine, TermOp::MoveToColumn(0)],
{
    let mut ops: Vec<TermOp> = Vec::new();
    ops.push(TermOp::ClearCurrentLine);
    ops.push(TermOp::MoveToColumn(0));
    ops
}

/// The writes that render an output change, with the number of rows the output
/// line covers afterwards. A replaced line first clears the rows the previous
/// render covered above the current one; a line break takes one row.
pub fn write_output_chg(current_lines_covered: u16, change: OutputChange, width: usize) -> (r: (
    Vec<TermOp>,
    u16,
))
    requires
        width > 0,
        change matches OutputChange::CurrentLine(line) ==> line@.len() < usize::MAX,
    ensures
        match change {
            OutputChange::CurrentLine(line) => {
                let above = if current_lines_covered >= 1 {
                    (current_lines_covered - 1) as nat
                } else {
                    0
                };
                let k = clear_rows_up(above).len() as int;
                &&& r.0@.len() == k + 3
                &&& r.0@.subrange(0, k) == clear_rows_up(above)
                &&& r.0@[k] == TermOp::ClearCurrentLine
                &&& r.0@[k + 1] == TermOp::MoveToColumn(0)
                &&& r.0@[k + 2] matches TermOp::Print(t) && t@ == line@
                &&& r.1 == lines_covered_spec(0, width as nat, line@.len()) as u16
            },
            OutputChange::NewLine => r.0@ == seq![TermOp::NewLine] && r.1 == 1,
        },
{
    match change {
        OutputChange::CurrentLine(line) => {
            let mut ops: Vec<TermOp> = Vec::new();
            let above = if current_lines_covered >= 1 {
                current_lines_covered - 1
            } else {
                0
            };
            push_clear_rows_up(&mut ops, above);
            let ghost k = ops@.len() as int;
            let mut erase = erase_current_line();
            ops.append(&mut erase);
            let n = line.as_str().unicode_len();
            ops.push(TermOp::Print(line));
            let rows = lines_covered(0, width, n);
            (ops, rows as u16)
        },
        OutputChange::NewLine => {
            let mut ops: Vec<TermOp> = Vec::new();
            ops.push(TermOp::NewLine);
            (ops, 1)
        },
    }
}

} // verus!
