//! A character-indexed editable line with a cursor.
use vstd::prelude::*;
use vstd::string::StrSliceExecFns;

verus! {

/// Text and cursor after inserting `ch` at the cursor.
pub open spec fn insert_model(text: Seq<char>, pos: nat, ch: char) -> (Seq<char>, nat) {
    (text.insert(pos as int, ch), pos + 1)
}

/// Text and cursor after inserting all of `s` at the cursor, in order.
pub open spec fn insert_str_model(text: Seq<char>, pos: nat, s: Seq<char>) -> (Seq<char>, nat) {
    (text.subrange(0, pos as int) + s + text.subrange(pos as int, text.len() as int), pos + s.len())
}

/// Text and cursor after removing the character before the cursor, if any.
pub open spec fn backspace_model(text: Seq<char>, pos: nat) -> (Seq<char>, nat) {
    if pos > 0 {
        (text.remove(pos - 1), (pos - 1) as nat)
    } else {
        (text, pos)
    }
}

/// Text and cursor after removing the character at the cursor, if any.
pub open spec fn delete_model(text: Seq<char>, pos: nat) -> (Seq<char>, nat) {
    if pos < text.len() {
        (text.remove(pos as int), pos)
    } else {
        (text, pos)
    }
}

/// Text and cursor after dropping every character from offset `n` onward.
pub open spec fn truncate_model(text: Seq<char>, pos: nat, n: nat) -> (Seq<char>, nat) {
    let len = if n < text.len() { n } else { text.len() };
    (text.subrange(0, len as int), if pos > len { len } else { pos })
}

/// An editable line: a sequence of characters and a cursor offset into it.
pub struct InputBuffer {
    buf: Vec<char>,
    pos: usize,
}

impl InputBuffer {
    /// The characters of the line.
    pub closed spec fn text(&self) -> Seq<char> {
        self.buf@
    }

    /// The cursor offset, in characters.
    pub closed spec fn cursor(&self) -> nat {
        self.pos as nat
    }

    /// Text and cursor as one value.
    pub open spec fn state(&self) -> (Seq<char>, nat) {
        (self.text(), self.cursor())
    }

    /// The cursor never passes the end of the text.
    pub open spec fn wf(&self) -> bool {
        self.cursor() <= self.text().len()
    }

    pub fn new() -> (r: Self)
        ensures
            r.wf(),
            r.text() == Seq::<char>::empty(),
            r.cursor() == 0,
    {
        InputBuffer { buf: Vec::new(), pos: 0 }
    }

    /// The text as a `String`.
    pub fn buffer(&self) -> (r: String)
        ensures
            r@ == self.text(),
    {
        let mut s = String::new();
        let mut i: usize = 0;
        while i < self.buf.len()
            invariant
                i <= self.buf@.len(),
                s@ == self.buf@.subrange(0, i as int),
            decreases self.buf@.len() - i,
        {
            push_char(&mut s, self.buf[i]);
            i = i + 1;
            assert(s@ =~= self.buf@.subrange(0, i as int));
        }
        assert(s@ =~= self.buf@);
        s
    }

    /// Number of characters.
    pub fn ch_len(&self) -> (r: usize)
        ensures
            r == self.text().len(),
    {
        self.buf.len()
    }

    /// The cursor offset, in characters.
    pub fn pos(&self) -> (r: usize)
        ensures
            r == self.cursor(),
    {
        self.pos
    }

    pub fn insert(&mut self, ch: char)
        requires
            old(self).wf(),
        ensures
            final(self).wf(),
            final(self).state() == insert_model(old(self).text(), old(self).cursor(), ch),
    {
        self.buf.insert(self.pos, ch);
        // the new length is a usize, and the cursor stays below it
        let _len = self.buf.len();
        self.pos = self.pos + 1;
    }

    pub fn insert_str(&mut self, s: &str)
        requires
            old(self).wf(),
        ensures
            final(self).wf(),
            final(self).state() == insert_str_model(old(self).text(), old(self).cursor(), s@),
    {
        let n = s.unicode_len();
        let ghost t0 = self.buf@;
        let ghost p0 = self.pos as int;
        let mut i: usize = 0;
        while i < n
            invariant
                self.wf(),
                n == s@.len(),
                i <= n,
                0 <= p0 <= t0.len(),
                self.pos == p0 + i,
                self.buf@ == t0.subrange(0, p0) + s@.subrange(0, i as int) + t0.subrange(
                    p0,
                    t0.len() as int,
                ),
            decreases n - i,
        {
            let c = s.get_char(i);
            let ghost before = self.buf@;
            self.insert(c);
            i = i + 1;
            assert(self.buf@ =~= before.insert(p0 + i - 1, c));
            assert(self.buf@ =~= t0.subrange(0, p0) + s@.subrange(0, i as int) + t0.subrange(
                p0,
                t0.len() as int,
            ));
        }
        assert(s@.subrange(0, n as int) =~= s@);
    }

    /// Removes the character before the cursor.
    pub fn backspace(&mut self)
        requires
            old(self).wf(),
        ensures
            final(self).wf(),
            final(self).state() == backspace_model(old(self).text(), old(self).cursor()),
    {
        if self.pos > 0 {
            self.pos = self.pos - 1;
            self.buf.remove(self.pos);
        }
    }

    /// Removes the character at the cursor.
    pub fn delete(&mut self)
        requires
            old(self).wf(),
        ensures
            final(self).wf(),
            final(self).state() == delete_model(old(self).text(), old(self).cursor()),
    {
        if self.pos < self.buf.len() {
            self.buf.remove(self.pos);
        }
    }

    /// Moves the cursor left by at most `n`; returns the distance moved.
    pub fn move_pos_left(&mut self, n: usize) -> (r: usize)
        requires
            old(self).wf(),
        ensures
            final(self).wf(),
            r == if n <= old(self).cursor() { n as nat } else { old(self).cursor() },
            final(self).text() == old(self).text(),
            final(self).cursor() == old(self).cursor() - r,
    {
        let n = if self.pos < n { self.pos } else { n };
        self.pos = self.pos - n;
        n
    }

    /// Moves the cursor right by at most `n`; returns the distance moved.
    pub fn move_pos_right(&mut self, n: usize) -> (r: usize)
        requires
            old(self).wf(),
        ensures
            final(self).wf(),
            r == if n <= old(self).text().len() - old(self).cursor() {
                n as int
            } else {
                old(self).text().len() - old(self).cursor()
            },
            final(self).text() == old(self).text(),
            final(self).cursor() == old(self).cursor() + r,
    {
        let max = self.buf.len() - self.pos;
        let n = if n > max { max } else { n };
        self.pos = self.pos + n;
        n
    }

    /// Drops every character from offset `ch_pos` onward, pulling the cursor back
    /// to the new end if it stood beyond it.
    pub fn truncate(&mut self, ch_pos: usize)
        requires
            old(self).wf(),
        ensures
            final(self).wf(),
            final(self).state() == truncate_model(old(self).text(), old(self).cursor(), ch_pos as nat),
    {
        self.buf.truncate(ch_pos);
        if self.pos > self.buf.len() {
            self.pos = self.buf.len();
        }
    }
}

/// Relies on `String::push`: appends one character.
#[verifier::external_body]
fn push_char(s: &mut String, c: char)
    ensures
        final(s)@ == old(s)@.push(c),
{
    s.push(c);
}

/// Inserting a character and removing it again with a backspace gives back the
/// same text and cursor.
pub proof fn lemma_insert_then_backspace(text: Seq<char>, pos: nat, ch: char)
    requires
        pos <= text.len(),
    ensures
        ({
            let (t1, p1) = insert_model(text, pos, ch);
            backspace_model(t1, p1)
        }) == (text, pos),
{
    let t1 = text.insert(pos as int, ch);
    assert(t1.remove(pos as int) =~= text);
}

} // verus!
