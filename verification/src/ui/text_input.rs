use vstd::prelude::*;
use crate::tokenizer::{push_char, string_chars};
use vstd::utf8::{char_is_scalar, encode_scalar, encode_utf8};

verus! {

/// A text without its line breaks (`'\n'` and `'\r'`): a macro is one line.
pub open spec fn strip_line_breaks(s: Seq<char>) -> Seq<char>
    decreases s.len(),
{
    if s.len() == 0 {
        s
    } else if s.last() == '\n' || s.last() == '\r' {
        strip_line_breaks(s.drop_last())
    } else {
        strip_line_breaks(s.drop_last()).push(s.last())
    }
}

fn strip_chars(chars: &Vec<char>) -> (res: Vec<char>)
    ensures
        res@ == strip_line_breaks(chars@),
{
    let mut res: Vec<char> = Vec::new();
    let mut i: usize = 0;
    while i < chars.len()
        invariant
            i <= chars@.len(),
            res@ == strip_line_breaks(chars@.subrange(0, i as int)),
        decreases chars@.len() - i,
    {
        let c = chars[i];
        proof {
            assert(chars@.subrange(0, i + 1).drop_last() =~= chars@.subrange(0, i as int));
        }
        if c != '\n' && c != '\r' {
            res.push(c);
        }
        i = i + 1;
    }
    assert(chars@.subrange(0, chars@.len() as int) =~= chars@);
    res
}

fn chars_to_string(chars: &Vec<char>) -> (res: String)
    ensures
        res@ == chars@,
{
    let mut res = String::new();
    let mut i: usize = 0;
    while i < chars.len()
        invariant
            i <= chars@.len(),
            res@ == chars@.subrange(0, i as int),
        decreases chars@.len() - i,
    {
        push_char(&mut res, chars[i]);
        assert(chars@.subrange(0, i + 1) =~= chars@.subrange(0, i as int).push(chars@[i as int]));
        i = i + 1;
    }
    assert(chars@.subrange(0, chars@.len() as int) =~= chars@);
    res
}

/// A text pasted into a macro, without its line breaks.
pub fn without_line_breaks(text: &String) -> (res: String)
    ensures
        res@ == strip_line_breaks(text@),
{
    let chars = string_chars(text);
    let stripped = strip_chars(&chars);
    chars_to_string(&stripped)
}

/// The number of UTF-8 bytes of the first `k` characters of a text: the
/// byte position of the boundary before character `k`.
pub open spec fn prefix_bytes(s: Seq<char>, k: int) -> int {
    encode_utf8(s.subrange(0, k)).len() as int
}

/// `k` is the character place of the first character boundary at or after
/// byte position `p`, where a position past the text's end stands for the
/// end.
pub open spec fn cursor_for_byte(s: Seq<char>, p: int, k: int) -> bool {
    let total = encode_utf8(s).len() as int;
    let limit = if p < total {
        p
    } else {
        total
    };
    &&& 0 <= k <= s.len()
    &&& prefix_bytes(s, k) >= limit
    &&& k == 0 || prefix_bytes(s, k - 1) < limit
}

proof fn lemma_encode_concat(a: Seq<char>, b: Seq<char>)
    ensures
        encode_utf8(a + b) == encode_utf8(a) + encode_utf8(b),
    decreases a.len(),
{
    if a.len() == 0 {
        assert(a + b =~= b);
        assert(encode_utf8(a) + encode_utf8(b) =~= encode_utf8(b));
    } else {
        assert((a + b).drop_first() =~= a.drop_first() + b);
        lemma_encode_concat(a.drop_first(), b);
        assert(encode_utf8(a + b) =~= encode_utf8(a) + encode_utf8(b));
    }
}

/// One character more adds the length of its encoding.
proof fn lemma_prefix_step(s: Seq<char>, k: int)
    requires
        0 <= k < s.len(),
    ensures
        prefix_bytes(s, k + 1) == prefix_bytes(s, k) + encode_scalar(s[k] as u32).len(),
        1 <= encode_scalar(s[k] as u32).len() <= 4,
{
    assert(s.subrange(0, k + 1) =~= s.subrange(0, k) + seq![s[k]]);
    lemma_encode_concat(s.subrange(0, k), seq![s[k]]);
    let t = seq![s[k]];
    assert(t[0] == s[k]);
    assert(t.drop_first() =~= Seq::<char>::empty());
    assert(encode_utf8(t.drop_first()) =~= Seq::<u8>::empty());
    assert(encode_utf8(t) == encode_scalar(t[0] as u32) + encode_utf8(t.drop_first()));
    assert(encode_utf8(t) =~= encode_scalar(s[k] as u32));
    char_is_scalar(s[k]);
}

/// More characters never take fewer bytes.
proof fn lemma_prefix_monotone(s: Seq<char>, j: int, k: int)
    requires
        0 <= j <= k <= s.len(),
    ensures
        prefix_bytes(s, j) <= prefix_bytes(s, k),
        prefix_bytes(s, s.len() as int) == encode_utf8(s).len(),
{
    assert(s.subrange(0, k) =~= s.subrange(0, j) + s.subrange(j, k));
    lemma_encode_concat(s.subrange(0, j), s.subrange(j, k));
    assert(s.subrange(0, s.len() as int) =~= s);
}

/// Law: a byte position has a single character place at or after it.
pub proof fn lemma_cursor_for_byte_unique(s: Seq<char>, p: int, k1: int, k2: int)
    requires
        cursor_for_byte(s, p, k1),
        cursor_for_byte(s, p, k2),
    ensures
        k1 == k2,
{
    if k1 < k2 {
        lemma_prefix_monotone(s, k1, k2 - 1);
    } else if k2 < k1 {
        lemma_prefix_monotone(s, k2, k1 - 1);
    }
}

/// The number of UTF-8 bytes of a character.
fn char_width(c: char) -> (res: u8)
    ensures
        res as int == encode_scalar(c as u32).len(),
        1 <= res <= 4,
{
    proof {
        char_is_scalar(c);
    }
    let v = c as u32;
    if v <= 0x7F {
        1
    } else if v <= 0x7FF {
        2
    } else if v <= 0xFFFF {
        3
    } else {
        4
    }
}

/// What the editor of a macro holds: the text, the place of the cursor
/// among its characters, and whether it has the keyboard focus.
pub struct TextInputView {
    pub text: Seq<char>,
    pub cursor: nat,
    pub focused: bool,
}

/// The editor after a character is typed at the cursor: the cursor then
/// stands after it.
pub open spec fn typed(v: TextInputView, c: char) -> TextInputView {
    TextInputView { text: v.text.insert(v.cursor as int, c), cursor: v.cursor + 1, focused: v.focused }
}

/// The editor after a text is inserted at the cursor: the cursor then
/// stands after it.
pub open spec fn inserted(v: TextInputView, t: Seq<char>) -> TextInputView {
    TextInputView {
        text: v.text.subrange(0, v.cursor as int) + t + v.text.subrange(
            v.cursor as int,
            v.text.len() as int,
        ),
        cursor: v.cursor + t.len(),
        focused: v.focused,
    }
}

/// The editor after the character after the cursor, if any, is removed.
pub open spec fn deleted(v: TextInputView) -> TextInputView {
    if v.cursor < v.text.len() {
        TextInputView { text: v.text.remove(v.cursor as int), ..v }
    } else {
        v
    }
}

/// The editor after the character before the cursor, if any, is removed;
/// the cursor moves back over it.
pub open spec fn erased_back(v: TextInputView) -> TextInputView {
    if v.cursor > 0 {
        TextInputView {
            text: v.text.remove(v.cursor - 1),
            cursor: (v.cursor - 1) as nat,
            focused: v.focused,
        }
    } else {
        v
    }
}

/// The editor after the cursor moves one character back, unless at the
/// start.
pub open spec fn moved_left(v: TextInputView) -> TextInputView {
    TextInputView {
        cursor: if v.cursor > 0 {
            (v.cursor - 1) as nat
        } else {
            0
        },
        ..v
    }
}

/// The editor after the cursor moves one character on, unless at the end.
pub open spec fn moved_right(v: TextInputView) -> TextInputView {
    TextInputView {
        cursor: if v.cursor < v.text.len() {
            v.cursor + 1
        } else {
            v.cursor
        },
        ..v
    }
}

/// The editor of a freshly loaded text.
pub open spec fn loaded(t: Seq<char>) -> TextInputView {
    TextInputView { text: strip_line_breaks(t), cursor: 0, focused: false }
}

/// The editor of one macro text, with a cursor between characters.
pub struct TextInput {
    text: Vec<char>,
    focused: bool,
    cursor_position: usize,
}

impl TextInput {
    pub closed spec fn view(&self) -> TextInputView {
        TextInputView {
            text: self.text@,
            cursor: self.cursor_position as nat,
            focused: self.focused,
        }
    }

    /// The cursor stands within the text.
    pub closed spec fn wf(&self) -> bool {
        self.cursor_position <= self.text@.len()
    }

    /// A well-formed editor's cursor stands within its text.
    pub proof fn lemma_cursor_within(&self)
        requires
            self.wf(),
        ensures
            self.view().cursor <= self.view().text.len(),
    {
    }

    /// An editor for a text, without its line breaks, with the cursor at
    /// the start and no focus.
    pub fn new(text: String) -> (res: Self)
        ensures
            res.wf(),
            res.view() == loaded(text@),
    {
        let chars = string_chars(&text);
        TextInput { text: strip_chars(&chars), focused: false, cursor_position: 0 }
    }

    /// The text.
    pub fn text(&self) -> (res: String)
        ensures
            res@ == self.view().text,
    {
        chars_to_string(&self.text)
    }

    /// The text before the cursor, and the text after it.
    pub fn split_at_cursor(&self) -> (res: (String, String))
        requires
            self.wf(),
        ensures
            res.0@ == self.view().text.subrange(0, self.view().cursor as int),
            res.1@ == self.view().text.subrange(
                self.view().cursor as int,
                self.view().text.len() as int,
            ),
    {
        let mut first: Vec<char> = Vec::new();
        let mut second: Vec<char> = Vec::new();
        let mut i: usize = 0;
        while i < self.text.len()
            invariant
                self.wf(),
                i <= self.text@.len(),
                i <= self.cursor_position ==> first@ == self.text@.subrange(0, i as int)
                    && second@.len() == 0,
                i > self.cursor_position ==> first@ == self.text@.subrange(
                    0,
                    self.cursor_position as int,
                ) && second@ == self.text@.subrange(self.cursor_position as int, i as int),
            decreases self.text@.len() - i,
        {
            if i < self.cursor_position {
                first.push(self.text[i]);
                assert(self.text@.subrange(0, i + 1) =~= self.text@.subrange(0, i as int).push(
                    self.text@[i as int],
                ));
            } else {
                second.push(self.text[i]);
                assert(self.text@.subrange(self.cursor_position as int, i + 1) =~= self.text@.subrange(
                    self.cursor_position as int,
                    i as int,
                ).push(self.text@[i as int]));
            }
            i = i + 1;
        }
        assert(self.text@.subrange(self.cursor_position as int, self.cursor_position as int)
            =~= Seq::<char>::empty());
        (chars_to_string(&first), chars_to_string(&second))
    }

    /// Gives or takes the keyboard focus.
    pub fn set_focus(&mut self, focus: bool)
        requires
            old(self).wf(),
        ensures
            final(self).wf(),
            final(self).view() == (TextInputView { focused: focus, ..old(self).view() }),
    {
        self.focused = focus;
    }

    /// Types a character at the cursor, which then stands after it.
    pub fn add_char(&mut self, c: char)
        requires
            old(self).wf(),
            old(self).view().text.len() < usize::MAX,
        ensures
            final(self).wf(),
            final(self).view() == typed(old(self).view(), c),
    {
        self.text.insert(self.cursor_position, c);
        self.cursor_position = self.cursor_position + 1;
    }

    /// Inserts a text at the cursor, which then stands after it.
    pub fn add_str(&mut self, text: &String)
        requires
            old(self).wf(),
            old(self).view().text.len() + text@.len() <= usize::MAX,
        ensures
            final(self).wf(),
            final(self).view() == inserted(old(self).view(), text@),
    {
        let chars = string_chars(text);
        let ghost before = self.text@;
        let ghost start = self.cursor_position as int;
        let ghost focus = self.focused;
        let mut i: usize = 0;
        while i < chars.len()
            invariant
                chars@ == text@,
                i <= chars@.len(),
                before.len() + chars@.len() <= usize::MAX,
                0 <= start <= before.len(),
                self.cursor_position == start + i,
                self.focused == focus,
                self.text@ == before.subrange(0, start) + chars@.subrange(0, i as int)
                    + before.subrange(start, before.len() as int),
            decreases chars@.len() - i,
        {
            let ghost prev = self.text@;
            self.text.insert(self.cursor_position, chars[i]);
            proof {
                assert(chars@.subrange(0, i + 1) =~= chars@.subrange(0, i as int).push(
                    chars@[i as int],
                ));
                assert(self.text@ =~= before.subrange(0, start) + chars@.subrange(0, i + 1)
                    + before.subrange(start, before.len() as int));
            }
            self.cursor_position = self.cursor_position + 1;
            i = i + 1;
        }
        assert(chars@.subrange(0, chars@.len() as int) =~= chars@);
    }

    /// Removes the character after the cursor, if any.
    pub fn delete_char(&mut self)
        requires
            old(self).wf(),
        ensures
            final(self).wf(),
            final(self).view() == deleted(old(self).view()),
    {
        if self.text.len() > self.cursor_position {
            self.text.remove(self.cursor_position);
        }
    }

    /// Removes the character before the cursor, if any; the cursor moves
    /// back over it.
    pub fn back_char(&mut self)
        requires
            old(self).wf(),
        ensures
            final(self).wf(),
            final(self).view() == erased_back(old(self).view()),
    {
        if self.cursor_position > 0 {
            self.cursor_position = self.cursor_position - 1;
            self.text.remove(self.cursor_position);
        }
    }

    /// Moves the cursor to the first character boundary at or after a byte
    /// position of the text's UTF-8 encoding, or to the end of the text
    /// when the position is past it.
    pub fn change_cursor_position(&mut self, cursor_position: usize)
        requires
            old(self).wf(),
        ensures
            final(self).wf(),
            final(self).view() == (TextInputView {
                cursor: final(self).view().cursor,
                ..old(self).view()
            }),
            cursor_for_byte(
                old(self).view().text,
                cursor_position as int,
                final(self).view().cursor as int,
            ),
    {
        let target = cursor_position as u128;
        let mut k: usize = 0;
        let mut acc: u128 = 0;
        while k < self.text.len() && acc < target
            invariant
                k <= self.text@.len(),
                acc == prefix_bytes(self.text@, k as int),
                acc <= 4 * k,
                k > 0 ==> prefix_bytes(self.text@, k - 1) < target,
            decreases self.text@.len() - k,
        {
            let w = char_width(self.text[k]);
            proof {
                lemma_prefix_step(self.text@, k as int);
            }
            acc = acc + w as u128;
            k = k + 1;
        }
        proof {
            let s = self.text@;
            lemma_prefix_monotone(s, k as int, s.len() as int);
            if k > 0 {
                lemma_prefix_step(s, k - 1);
            }
        }
        self.cursor_position = k;
    }

    /// Moves the cursor one character back, unless it is at the start.
    pub fn cursor_left(&mut self)
        requires
            old(self).wf(),
        ensures
            final(self).wf(),
            final(self).view() == moved_left(old(self).view()),
    {
        if self.cursor_position > 0 {
            self.cursor_position = self.cursor_position - 1;
        }
    }

    /// Moves the cursor one character on, unless it is at the end.
    pub fn cursor_right(&mut self)
        requires
            old(self).wf(),
        ensures
            final(self).wf(),
            final(self).view() == moved_right(old(self).view()),
    {
        if self.cursor_position < self.text.len() {
            self.cursor_position = self.cursor_position + 1;
        }
    }
}

/// Law: typing a character and then erasing backwards gives back the
/// editor as it was; so does moving right and then left within the text.
pub proof fn lemma_type_then_erase(v: TextInputView, c: char)
    requires
        v.cursor <= v.text.len(),
    ensures
        erased_back(typed(v, c)) == v,
        v.cursor < v.text.len() ==> moved_left(moved_right(v)) == v,
{
    assert(v.text.insert(v.cursor as int, c).remove(v.cursor as int) =~= v.text);
}

/// Law: the text never holds a line break after it was loaded.
pub proof fn lemma_no_line_breaks(s: Seq<char>)
    ensures
        !strip_line_breaks(s).contains('\n'),
        !strip_line_breaks(s).contains('\r'),
    decreases s.len(),
{
    if s.len() > 0 {
        lemma_no_line_breaks(s.drop_last());
        let t = strip_line_breaks(s.drop_last());
        if !(s.last() == '\n' || s.last() == '\r') {
            assert forall|i: int| 0 <= i < t.push(s.last()).len() implies t.push(s.last())[i]
                != '\n' && t.push(s.last())[i] != '\r' by {
                if i < t.len() {
                    assert(t.push(s.last())[i] == t[i]);
                }
            }
        }
    }
}

} // verus!
