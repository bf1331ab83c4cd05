//! Terminal input events and how each one edits the input line.
use crate::buffer::{backspace_model, delete_model, insert_model, InputBuffer};
use crate::redraw::{is_overwrite, lines_covered, lines_covered_spec, overwrite_text, TermOp};
use vstd::prelude::*;

verus! {

/// The key of a key press.
#[derive(Debug, Clone, Copy, PartialEq, Eq, Structural)]
pub enum KeyCode {
    Backspace,
    Enter,
    Left,
    Right,
    Up,
    Down,
    Home,
    End,
    PageUp,
    PageDown,
    Tab,
    BackTab,
    Delete,
    Insert,
    F(u8),
    Char(char),
    Null,
    Esc,
}

/// Modifier keys held during a key press.
#[derive(Debug, Clone, Copy, PartialEq, Eq, Structural)]
pub struct KeyModifiers {
    pub shift: bool,
    pub control: bool,
    pub alt: bool,
}

/// A key press with its modifiers.
#[derive(Debug, Clone, Copy, PartialEq, Eq, Structural)]
pub struct KeyEvent {
    pub code: KeyCode,
    pub modifiers: KeyModifiers,
}

/// An input event read from the terminal.
#[derive(Debug, Clone, Copy, PartialEq, Eq, Structural)]
pub enum Event {
    Key(KeyEvent),
    /// Any mouse event; the editor ignores them.
    Mouse,
    /// The terminal now has this many columns and rows.
    Resize(u16, u16),
}

/// No modifier held.
pub open spec fn no_mods(m: KeyModifiers) -> bool {
    !m.shift && !m.control && !m.alt
}

/// Shift alone held.
pub open spec fn shift_only(m: KeyModifiers) -> bool {
    m.shift && !m.control && !m.alt
}

/// Text and cursor after applying `event`, and whether the text changed. Plain
/// arrows move the cursor by one; plain backspace and delete remove a character;
/// a character typed plain or with shift alone is inserted; anything else is
/// ignored.
pub open spec fn apply_event_model(text: Seq<char>, pos: nat, event: Event) -> ((Seq<char>, nat), bool) {
    match event {
        Event::Key(k) => if no_mods(k.modifiers) && k.code == KeyCode::Left {
            ((text, if pos >= 1 { (pos - 1) as nat } else { pos }), false)
        } else if no_mods(k.modifiers) && k.code == KeyCode::Right {
            ((text, if pos < text.len() { pos + 1 } else { pos }), false)
        } else if no_mods(k.modifiers) && k.code == KeyCode::Backspace {
            (backspace_model(text, pos), true)
        } else if no_mods(k.modifiers) && k.code == KeyCode::Delete {
            (delete_model(text, pos), true)
        } else if (no_mods(k.modifiers) || shift_only(k.modifiers)) && k.code is Char {
            (insert_model(text, pos, k.code->Char_0), true)
        } else {
            ((text, pos), false)
        },
        _ => ((text, pos), false),
    }
}

/// Applies one input event to the line; returns the line and whether its text
/// changed (so that it has to be redrawn).
pub fn apply_event_to_buf(buf: InputBuffer, event: Event) -> (r: (InputBuffer, bool))
    requires
        buf.wf(),
    ensures
        r.0.wf(),
        (r.0.state(), r.1) == apply_event_model(buf.text(), buf.cursor(), event),
{
    let mut buf = buf;
    let cmd = match event {
        Event::Key(k) => {
            let plain = !k.modifiers.shift && !k.modifiers.control && !k.modifiers.alt;
            let shifted = k.modifiers.shift && !k.modifiers.control && !k.modifiers.alt;
            match k.code {
                KeyCode::Left if plain => {
                    buf.move_pos_left(1);
                    false
                },
                KeyCode::Right if plain => {
                    buf.move_pos_right(1);
                    false
                },
                KeyCode::Backspace if plain => {
                    buf.backspace();
                    true
                },
                KeyCode::Delete if plain => {
                    buf.delete();
                    true
                },
                KeyCode::Char(c) if plain || shifted => {
                    buf.insert(c);
                    true
                },
                _ => false,
            }
        },
        _ => false,
    };
    (buf, cmd)
}

/// What the read loop does after one event.
#[derive(Debug)]
pub enum ReadAction {
    /// The event is one of the stop events: reading ends with it.
    Stop,
    /// The text changed: perform these writes to redraw it.
    Redraw(Vec<TermOp>),
    /// Nothing to draw (the cursor may have moved).
    Idle,
}

/// Rows above the cursor that a redraw of a line which covered `lines` rows
/// clears, as the terminal's row count.
pub open spec fn rows_to_clear(lines: nat) -> u16 {
    (if lines >= 1 { (lines - 1) as nat } else { 0 }) as u16
}

fn contains_event(events: &[Event], ev: Event) -> (r: bool)
    ensures
        r == events@.contains(ev),
{
    let mut i: usize = 0;
    while i < events.len()
        invariant
            i <= events@.len(),
            forall|j: int| 0 <= j < i ==> events@[j] != ev,
        decreases events@.len() - i,
    {
        if events[i] == ev {
            return true;
        }
        i = i + 1;
    }
    false
}

/// One step of reading a line: an event in `events` stops reading; any other is
/// applied to `buf`, and when the text changed the line, which starts at column
/// `initial.0`, is redrawn over the rows it covered in a terminal `width` wide.
pub fn read_step(buf: InputBuffer, initial: (u16, u16), width: usize, ev: Event, events: &[Event]) -> (r: (
    InputBuffer,
    ReadAction,
))
    requires
        buf.wf(),
        width > 0,
        buf.text().len() < usize::MAX,
        initial.0 < u16::MAX,
    ensures
        r.0.wf(),
        events@.contains(ev) ==> r.0 == buf && r.1 is Stop,
        !events@.contains(ev) ==> {
            let (st, changed) = apply_event_model(buf.text(), buf.cursor(), ev);
            let prev = lines_covered_spec(initial.0 as nat, width as nat, buf.text().len());
            &&& r.0.state() == st
            &&& changed ==> (r.1 matches ReadAction::Redraw(ops) && is_overwrite(
                ops@,
                (initial.0 + 1) as u16,
                rows_to_clear(prev),
                st.0,
            ))
            &&& !changed ==> r.1 is Idle
        },
{
    if contains_event(events, ev) {
        return (buf, ReadAction::Stop);
    }
    let prev = lines_covered(initial.0 as usize, width, buf.ch_len());
    let (newbuf, chg) = apply_event_to_buf(buf, ev);
    if chg {
        let rows = if prev >= 1 { prev - 1 } else { 0 };
        let text = newbuf.buffer();
        let ops = overwrite_text(initial.0 + 1, rows as u16, text.as_str());
        (newbuf, ReadAction::Redraw(ops))
    } else {
        (newbuf, ReadAction::Idle)
    }
}

} // verus!
