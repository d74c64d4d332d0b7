use vstd::prelude::*;
use vstd::string::StrSliceExecFns;

verus! {

/// Modifier keys that a macro can press or release.
#[derive(Debug, Clone, Copy, PartialEq, Eq)]
pub enum Key {
    Shift,
    Control,
    Alt,
    Command,
}

/// Mouse buttons and wheel directions that a macro can use.
#[derive(Debug, Clone, Copy, PartialEq, Eq)]
pub enum Button {
    Left,
    Middle,
    Right,
    ScrollUp,
    ScrollDown,
}

/// One step of a macro.
#[derive(Debug, Clone, PartialEq, Eq)]
pub enum Token {
    Sequence(String),
    Unicode(String),
    KeyUp(Key),
    KeyDown(Key),
    MouseUp(Button),
    MouseDown(Button),
    Click(Button),
    WaitUp,
    Repeat,
}

/// The mathematical value of a token: its text as a sequence of characters.
pub enum SpecToken {
    Sequence(Seq<char>),
    Unicode(Seq<char>),
    KeyUp(Key),
    KeyDown(Key),
    MouseUp(Button),
    MouseDown(Button),
    Click(Button),
    WaitUp,
    Repeat,
}

impl View for Token {
    type V = SpecToken;

    open spec fn view(&self) -> SpecToken {
        match self {
            Token::Sequence(s) => SpecToken::Sequence(s@),
            Token::Unicode(s) => SpecToken::Unicode(s@),
            Token::KeyUp(k) => SpecToken::KeyUp(*k),
            Token::KeyDown(k) => SpecToken::KeyDown(*k),
            Token::MouseUp(b) => SpecToken::MouseUp(*b),
            Token::MouseDown(b) => SpecToken::MouseDown(*b),
            Token::Click(b) => SpecToken::Click(*b),
            Token::WaitUp => SpecToken::WaitUp,
            Token::Repeat => SpecToken::Repeat,
        }
    }
}

/// The values of a sequence of tokens.
pub open spec fn tokens_view(v: Seq<Token>) -> Seq<SpecToken> {
    v.map_values(|t: Token| t@)
}

/// What the scanner has gathered so far: the finished tokens, the plain text
/// waiting to become a token, and whether that text is typed as unicode.
pub struct ScanState {
    pub tokens: Seq<SpecToken>,
    pub buffer: Seq<char>,
    pub unicode: bool,
}

pub open spec fn initial_scan_state() -> ScanState {
    ScanState { tokens: seq![], buffer: seq![], unicode: false }
}

/// The state with `c` added to the pending text.
pub open spec fn with_char(st: ScanState, c: char) -> ScanState {
    ScanState { tokens: st.tokens, buffer: st.buffer.push(c), unicode: st.unicode }
}

/// The pending text, if any, turned into a token; the pending text is then empty.
pub open spec fn flushed(st: ScanState) -> ScanState {
    ScanState {
        tokens: if st.buffer.len() == 0 {
            st.tokens
        } else if st.unicode {
            st.tokens.push(SpecToken::Unicode(st.buffer))
        } else {
            st.tokens.push(SpecToken::Sequence(st.buffer))
        },
        buffer: seq![],
        unicode: st.unicode,
    }
}

/// The token that a tag stands for, if it stands for one.
pub open spec fn tag_token(tag: Seq<char>) -> Option<SpecToken> {
    if tag == "REPEAT"@ {
        Some(SpecToken::Repeat)
    } else if tag == "WAIT_UP"@ {
        Some(SpecToken::WaitUp)
    } else if tag == "+SHIFT"@ {
        Some(SpecToken::KeyDown(Key::Shift))
    } else if tag == "-SHIFT"@ {
        Some(SpecToken::KeyUp(Key::Shift))
    } else if tag == "+CTRL"@ {
        Some(SpecToken::KeyDown(Key::Control))
    } else if tag == "-CTRL"@ {
        Some(SpecToken::KeyUp(Key::Control))
    } else if tag == "+META"@ {
        Some(SpecToken::KeyDown(Key::Command))
    } else if tag == "-META"@ {
        Some(SpecToken::KeyUp(Key::Command))
    } else if tag == "+ALT"@ {
        Some(SpecToken::KeyDown(Key::Alt))
    } else if tag == "-ALT"@ {
        Some(SpecToken::KeyUp(Key::Alt))
    } else if tag == "+LEFT"@ {
        Some(SpecToken::MouseUp(Button::Left))
    } else if tag == "-LEFT"@ {
        Some(SpecToken::MouseDown(Button::Left))
    } else if tag == "+MIDDLE"@ {
        Some(SpecToken::MouseUp(Button::Middle))
    } else if tag == "-MIDDLE"@ {
        Some(SpecToken::MouseDown(Button::Middle))
    } else if tag == "+RIGHT"@ {
        Some(SpecToken::MouseUp(Button::Right))
    } else if tag == "-RIGHT"@ {
        Some(SpecToken::MouseDown(Button::Right))
    } else if tag == "SCROLL_UP"@ {
        Some(SpecToken::Click(Button::ScrollUp))
    } else if tag == "SCROLL_DOWN"@ {
        Some(SpecToken::Click(Button::ScrollDown))
    } else {
        None
    }
}

/// The effect of a closed tag: `+UNICODE` and `-UNICODE` switch how later
/// text is typed, a known tag adds its token, any other tag is ignored.
pub open spec fn apply_tag(tag: Seq<char>, st: ScanState) -> ScanState {
    if tag == "+UNICODE"@ {
        ScanState { tokens: st.tokens, buffer: st.buffer, unicode: true }
    } else if tag == "-UNICODE"@ {
        ScanState { tokens: st.tokens, buffer: st.buffer, unicode: false }
    } else {
        match tag_token(tag) {
            Some(t) => ScanState { tokens: st.tokens.push(t), buffer: st.buffer, unicode: st.unicode },
            None => st,
        }
    }
}

/// Law: only `+UNICODE` and `-UNICODE` change how pending text is typed:
/// the first switches unicode typing on and the second off, and neither adds
/// a token. Any other tag keeps the unicode mode as it was and adds at most
/// one token after the ones already found. No tag touches the pending text,
/// and adding a character or turning the pending text into a token keeps
/// the mode too.
pub proof fn lemma_tag_keeps_unicode_mode(tag: Seq<char>, st: ScanState, c: char)
    ensures
        apply_tag(tag, st).buffer == st.buffer,
        tag == "+UNICODE"@ ==> apply_tag(tag, st).unicode && apply_tag(tag, st).tokens
            == st.tokens,
        tag == "-UNICODE"@ ==> !apply_tag(tag, st).unicode && apply_tag(tag, st).tokens
            == st.tokens,
        tag != "+UNICODE"@ && tag != "-UNICODE"@ ==> apply_tag(tag, st).unicode == st.unicode,
        tag != "+UNICODE"@ && tag != "-UNICODE"@ ==> apply_tag(tag, st).tokens == st.tokens
            || apply_tag(tag, st).tokens == st.tokens.push(apply_tag(tag, st).tokens.last()),
        with_char(st, c).unicode == st.unicode,
        flushed(st).unicode == st.unicode,
        st.buffer.len() > 0 && st.unicode ==> flushed(st).tokens == st.tokens.push(
            SpecToken::Unicode(st.buffer),
        ),
        st.buffer.len() > 0 && !st.unicode ==> flushed(st).tokens == st.tokens.push(
            SpecToken::Sequence(st.buffer),
        ),
{
    reveal_strlit("+UNICODE");
    reveal_strlit("-UNICODE");
    assert("+UNICODE"@[0] != "-UNICODE"@[0]);
    if tag != "+UNICODE"@ && tag != "-UNICODE"@ {
        if let Some(t) = tag_token(tag) {
            assert(st.tokens.push(t).last() == t);
        }
    }
}

/// Scanning of text from position `i`: `{{` and `}}` stand for a brace, a
/// single `{` opens a tag (the pending text is first turned into a token), a
/// single `}` drops itself and the character after it. Text still pending
/// at the end of the input is not turned into a token.
/// `None` when a tag is never closed.
pub open spec fn scan(s: Seq<char>, i: int, st: ScanState) -> Option<Seq<SpecToken>>
    decreases s.len() - i,
{
    if i < 0 || i >= s.len() {
        Some(st.tokens)
    } else if s[i] == '{' {
        if i + 1 >= s.len() {
            Some(st.tokens)
        } else if s[i + 1] == '{' {
            scan(s, i + 2, with_char(st, '{'))
        } else {
            tag_scan(s, i + 2, s[i + 1], seq![], flushed(st))
        }
    } else if s[i] == '}' {
        if i + 1 >= s.len() {
            Some(st.tokens)
        } else if s[i + 1] == '}' {
            scan(s, i + 2, with_char(st, '}'))
        } else {
            scan(s, i + 2, st)
        }
    } else {
        scan(s, i + 1, with_char(st, s[i]))
    }
}

/// Scanning of a tag whose name so far is `tag`, with `c` the character to
/// add next and `j` the position after it. Inside a tag `{{` and `}}` stand
/// for a brace, a single `{` adds the previous character once more, and a
/// single `}` closes the tag.
pub open spec fn tag_scan(s: Seq<char>, j: int, c: char, tag: Seq<char>, st: ScanState) -> Option<
    Seq<SpecToken>,
>
    decreases s.len() - j,
{
    let tag = tag.push(c);
    if j < 0 || j >= s.len() {
        None
    } else if s[j] == '{' {
        if j + 1 < s.len() && s[j + 1] == '{' {
            tag_scan(s, j + 2, '{', tag, st)
        } else {
            tag_scan(s, j + 1, c, tag, st)
        }
    } else if s[j] == '}' {
        if j + 1 < s.len() && s[j + 1] == '}' {
            tag_scan(s, j + 2, '}', tag, st)
        } else {
            scan(s, j + 1, apply_tag(tag, st))
        }
    } else {
        tag_scan(s, j + 1, s[j], tag, st)
    }
}

/// The tokens of a macro text; `None` when a tag is never closed.
pub open spec fn tokenize_spec(s: Seq<char>) -> Option<Seq<SpecToken>> {
    scan(s, 0, initial_scan_state())
}

/// `String::push` from std: appends the character to the end of the string.
#[verifier::external_body]
pub(crate) fn push_char(s: &mut String, c: char)
    ensures
        final(s)@ == old(s)@.push(c),
{
    s.push(c)
}

/// The characters of a string, in order.
pub(crate) fn string_chars(s: &String) -> (res: Vec<char>)
    ensures
        res@ == s@,
{
    let st = s.as_str();
    let n = st.unicode_len();
    let mut v: Vec<char> = Vec::new();
    let mut i: usize = 0;
    while i < n
        invariant
            n == st@.len(),
            st@ == s@,
            i <= n,
            v@ == st@.subrange(0, i as int),
        decreases n - i,
    {
        v.push(st.get_char(i));
        i = i + 1;
    }
    v
}

/// Whether the characters equal the text.
fn chars_eq_str(v: &Vec<char>, s: &str) -> (res: bool)
    ensures
        res == (v@ == s@),
{
    let n = s.unicode_len();
    if v.len() != n {
        return false;
    }
    let mut i: usize = 0;
    while i < n
        invariant
            n == s@.len(),
            v@.len() == n,
            i <= n,
            forall|k: int| 0 <= k < i ==> v@[k] == s@[k],
        decreases n - i,
    {
        if v[i] != s.get_char(i) {
            return false;
        }
        i = i + 1;
    }
    assert(v@ =~= s@);
    true
}

proof fn lemma_tokens_view_push(v: Seq<Token>, t: Token)
    ensures
        tokens_view(v.push(t)) == tokens_view(v).push(t@),
{
    assert(tokens_view(v.push(t)) =~= tokens_view(v).push(t@));
}

/// Turns the pending text into a token (a unicode one when `is_unicode`),
/// if there is pending text, and empties it.
fn flush(tokens: &mut Vec<Token>, buffer: &mut String, is_unicode: bool)
    ensures
        tokens_view(final(tokens)@) == flushed(
            ScanState { tokens: tokens_view(old(tokens)@), buffer: old(buffer)@, unicode: is_unicode },
        ).tokens,
        final(buffer)@ == Seq::<char>::empty(),
{
    if !buffer.as_str().is_empty() {
        let ghost before = tokens@;
        if is_unicode {
            tokens.push(Token::Unicode(buffer.clone()));
        } else {
            tokens.push(Token::Sequence(buffer.clone()));
        }
        proof {
            lemma_tokens_view_push(before, tokens@.last());
        }
    }
    *buffer = String::new();
}

/// The exec counterpart of `apply_tag`.
fn run_tag(tag: &Vec<char>, tokens: &mut Vec<Token>, is_unicode: &mut bool)
    ensures
        ({
            let st = apply_tag(
                tag@,
                ScanState { tokens: tokens_view(old(tokens)@), buffer: seq![], unicode: *old(is_unicode) },
            );
            &&& tokens_view(final(tokens)@) == st.tokens
            &&& *final(is_unicode) == st.unicode
        }),
{
    let ghost before = tokens@;
    let t: Token;
    if chars_eq_str(tag, "+UNICODE") {
        *is_unicode = true;
        return ;
    } else if chars_eq_str(tag, "-UNICODE") {
        *is_unicode = false;
        return ;
    } else if chars_eq_str(tag, "REPEAT") {
        t = Token::Repeat;
    } else if chars_eq_str(tag, "WAIT_UP") {
        t = Token::WaitUp;
    } else if chars_eq_str(tag, "+SHIFT") {
        t = Token::KeyDown(Key::Shift);
    } else if chars_eq_str(tag, "-SHIFT") {
        t = Token::KeyUp(Key::Shift);
    } else if chars_eq_str(tag, "+CTRL") {
        t = Token::KeyDown(Key::Control);
    } else if chars_eq_str(tag, "-CTRL") {
        t = Token::KeyUp(Key::Control);
    } else if chars_eq_str(tag, "+META") {
        t = Token::KeyDown(Key::Command);
    } else if chars_eq_str(tag, "-META") {
        t = Token::KeyUp(Key::Command);
    } else if chars_eq_str(tag, "+ALT") {
        t = Token::KeyDown(Key::Alt);
    } else if chars_eq_str(tag, "-ALT") {
        t = Token::KeyUp(Key::Alt);
    } else if chars_eq_str(tag, "+LEFT") {
        t = Token::MouseUp(Button::Left);
    } else if chars_eq_str(tag, "-LEFT") {
        t = Token::MouseDown(Button::Left);
    } else if chars_eq_str(tag, "+MIDDLE") {
        t = Token::MouseUp(Button::Middle);
    } else if chars_eq_str(tag, "-MIDDLE") {
        t = Token::MouseDown(Button::Middle);
    } else if chars_eq_str(tag, "+RIGHT") {
        t = Token::MouseUp(Button::Right);
    } else if chars_eq_str(tag, "-RIGHT") {
        t = Token::MouseDown(Button::Right);
    } else if chars_eq_str(tag, "SCROLL_UP") {
        t = Token::Click(Button::ScrollUp);
    } else if chars_eq_str(tag, "SCROLL_DOWN") {
        t = Token::Click(Button::ScrollDown);
    } else {
        return ;
    }
    tokens.push(t);
    proof {
        lemma_tokens_view_push(before, t);
    }
}

/// No tag opens at or after position `i`.
pub open spec fn no_tag_from(s: Seq<char>, i: int) -> bool {
    forall|k: int| i <= k < s.len() ==> #[trigger] s[k] != '{'
}

proof fn lemma_scan_plain(s: Seq<char>, i: int, st: ScanState)
    requires
        0 <= i,
        no_tag_from(s, i),
    ensures
        scan(s, i, st) == Some(st.tokens),
    decreases s.len() - i,
{
    if i < s.len() {
        assert(s[i] != '{');
        if s[i] == '}' {
            if i + 1 < s.len() {
                if s[i + 1] == '}' {
                    lemma_scan_plain(s, i + 2, with_char(st, '}'));
                } else {
                    lemma_scan_plain(s, i + 2, st);
                }
            }
        } else {
            lemma_scan_plain(s, i + 1, with_char(st, s[i]));
        }
    }
}

/// Law: a text in which no tag opens always has tokens, and none: plain
/// text becomes a token only when a tag follows it.
pub proof fn lemma_plain_text_has_no_tokens(s: Seq<char>)
    requires
        no_tag_from(s, 0),
    ensures
        tokenize_spec(s) == Some(Seq::<SpecToken>::empty()),
{
    lemma_scan_plain(s, 0, initial_scan_state());
}

/// The scan state after a text whose scan ends with its last character
/// closing a tag (the state with that tag applied); `None` when the scan
/// ends in any other way.
pub open spec fn scan_end_state(s: Seq<char>, i: int, st: ScanState) -> Option<ScanState>
    decreases s.len() - i,
{
    if i < 0 || i >= s.len() {
        None
    } else if s[i] == '{' {
        if i + 1 >= s.len() {
            None
        } else if s[i + 1] == '{' {
            scan_end_state(s, i + 2, with_char(st, '{'))
        } else {
            tag_end_state(s, i + 2, s[i + 1], seq![], flushed(st))
        }
    } else if s[i] == '}' {
        if i + 1 >= s.len() {
            None
        } else if s[i + 1] == '}' {
            scan_end_state(s, i + 2, with_char(st, '}'))
        } else {
            scan_end_state(s, i + 2, st)
        }
    } else {
        scan_end_state(s, i + 1, with_char(st, s[i]))
    }
}

/// `scan_end_state` inside a tag (see `tag_scan`).
pub open spec fn tag_end_state(
    s: Seq<char>,
    j: int,
    c: char,
    tag: Seq<char>,
    st: ScanState,
) -> Option<ScanState>
    decreases s.len() - j,
{
    let tag = tag.push(c);
    if j < 0 || j >= s.len() {
        None
    } else if s[j] == '{' {
        if j + 1 < s.len() && s[j + 1] == '{' {
            tag_end_state(s, j + 2, '{', tag, st)
        } else {
            tag_end_state(s, j + 1, c, tag, st)
        }
    } else if s[j] == '}' {
        if j + 1 < s.len() && s[j + 1] == '}' {
            tag_end_state(s, j + 2, '}', tag, st)
        } else if j + 1 == s.len() {
            Some(apply_tag(tag, st))
        } else {
            scan_end_state(s, j + 1, apply_tag(tag, st))
        }
    } else {
        tag_end_state(s, j + 1, s[j], tag, st)
    }
}

/// The state with its finished tokens replaced.
pub open spec fn with_tokens(st: ScanState, tokens: Seq<SpecToken>) -> ScanState {
    ScanState { tokens: tokens, buffer: st.buffer, unicode: st.unicode }
}

/// Tokens put in front of a scan's result.
pub open spec fn prefixed(t: Seq<SpecToken>, r: Option<Seq<SpecToken>>) -> Option<Seq<SpecToken>> {
    match r {
        Some(x) => Some(t + x),
        None => None,
    }
}

proof fn lemma_prefixed_assoc(a: Seq<SpecToken>, b: Seq<SpecToken>, r: Option<Seq<SpecToken>>)
    ensures
        prefixed(a + b, r) == prefixed(a, prefixed(b, r)),
{
    if let Some(x) = r {
        assert((a + b) + x =~= a + (b + x));
    }
}

/// A scan only adds tokens after those already finished.
proof fn lemma_scan_frame(s: Seq<char>, i: int, st: ScanState)
    ensures
        scan(s, i, st) == prefixed(st.tokens, scan(s, i, with_tokens(st, seq![]))),
    decreases s.len() - i, 1int,
{
    let e = with_tokens(st, seq![]);
    if i < 0 || i >= s.len() {
        assert(st.tokens + Seq::<SpecToken>::empty() =~= st.tokens);
    } else if s[i] == '{' {
        if i + 1 >= s.len() {
            assert(st.tokens + Seq::<SpecToken>::empty() =~= st.tokens);
        } else if s[i + 1] == '{' {
            lemma_scan_frame(s, i + 2, with_char(st, '{'));
            lemma_scan_frame(s, i + 2, with_char(e, '{'));
            assert(with_tokens(with_char(st, '{'), seq![]) == with_tokens(with_char(e, '{'), seq![]));
            assert(with_char(e, '{').tokens =~= Seq::<SpecToken>::empty());
            assert(Seq::<SpecToken>::empty() + Seq::<SpecToken>::empty() =~= Seq::<SpecToken>::empty());
            lemma_prefixed_assoc(st.tokens, seq![], scan(s, i + 2, with_tokens(with_char(e, '{'), seq![])));
            assert(st.tokens + Seq::<SpecToken>::empty() =~= st.tokens);
        } else {
            lemma_tag_frame(s, i + 2, s[i + 1], seq![], flushed(st));
            lemma_tag_frame(s, i + 2, s[i + 1], seq![], flushed(e));
            assert(with_tokens(flushed(st), seq![]) == with_tokens(flushed(e), seq![]));
            assert(flushed(st).tokens =~= st.tokens + flushed(e).tokens);
            lemma_prefixed_assoc(
                st.tokens,
                flushed(e).tokens,
                tag_scan(s, i + 2, s[i + 1], seq![], with_tokens(flushed(e), seq![])),
            );
        }
    } else if s[i] == '}' {
        if i + 1 >= s.len() {
            assert(st.tokens + Seq::<SpecToken>::empty() =~= st.tokens);
        } else if s[i + 1] == '}' {
            lemma_scan_frame(s, i + 2, with_char(st, '}'));
            assert(with_tokens(with_char(st, '}'), seq![]) == with_char(e, '}'));
        } else {
            lemma_scan_frame(s, i + 2, st);
        }
    } else {
        lemma_scan_frame(s, i + 1, with_char(st, s[i]));
        assert(with_tokens(with_char(st, s[i]), seq![]) == with_char(e, s[i]));
    }
}

proof fn lemma_tag_frame(s: Seq<char>, j: int, c: char, tag: Seq<char>, st: ScanState)
    ensures
        tag_scan(s, j, c, tag, st) == prefixed(
            st.tokens,
            tag_scan(s, j, c, tag, with_tokens(st, seq![])),
        ),
    decreases s.len() - j, 0int,
{
    let e = with_tokens(st, seq![]);
    let tag2 = tag.push(c);
    if j < 0 || j >= s.len() {
    } else if s[j] == '{' {
        if j + 1 < s.len() && s[j + 1] == '{' {
            lemma_tag_frame(s, j + 2, '{', tag2, st);
        } else {
            lemma_tag_frame(s, j + 1, c, tag2, st);
        }
    } else if s[j] == '}' {
        if j + 1 < s.len() && s[j + 1] == '}' {
            lemma_tag_frame(s, j + 2, '}', tag2, st);
        } else {
            lemma_scan_frame(s, j + 1, apply_tag(tag2, st));
            lemma_scan_frame(s, j + 1, apply_tag(tag2, e));
            assert(with_tokens(apply_tag(tag2, st), seq![]) == with_tokens(apply_tag(tag2, e), seq![]));
            assert(apply_tag(tag2, st).tokens =~= st.tokens + apply_tag(tag2, e).tokens);
            lemma_prefixed_assoc(
                st.tokens,
                apply_tag(tag2, e).tokens,
                scan(s, j + 1, with_tokens(apply_tag(tag2, e), seq![])),
            );
        }
    } else {
        lemma_tag_frame(s, j + 1, s[j], tag2, st);
    }
}

/// Scanning text after a prefix is scanning the text alone.
proof fn lemma_scan_shift(a: Seq<char>, b: Seq<char>, k: int, st: ScanState)
    requires
        0 <= k,
    ensures
        scan(a + b, a.len() + k, st) == scan(b, k, st),
    decreases b.len() - k, 1int,
{
    let s = a + b;
    let i = a.len() + k;
    if k < b.len() {
        assert(s[i] == b[k]);
        if k + 1 < b.len() {
            assert(s[i + 1] == b[k + 1]);
        }
        if b[k] == '{' {
            if k + 1 < b.len() {
                if b[k + 1] == '{' {
                    lemma_scan_shift(a, b, k + 2, with_char(st, '{'));
                } else {
                    lemma_tag_shift(a, b, k + 2, b[k + 1], seq![], flushed(st));
                }
            }
        } else if b[k] == '}' {
            if k + 1 < b.len() {
                if b[k + 1] == '}' {
                    lemma_scan_shift(a, b, k + 2, with_char(st, '}'));
                } else {
                    lemma_scan_shift(a, b, k + 2, st);
                }
            }
        } else {
            lemma_scan_shift(a, b, k + 1, with_char(st, b[k]));
        }
    }
}

proof fn lemma_tag_shift(a: Seq<char>, b: Seq<char>, k: int, c: char, tag: Seq<char>, st: ScanState)
    requires
        0 <= k,
    ensures
        tag_scan(a + b, a.len() + k, c, tag, st) == tag_scan(b, k, c, tag, st),
    decreases b.len() - k, 0int,
{
    let s = a + b;
    let j = a.len() + k;
    let tag2 = tag.push(c);
    if k < b.len() {
        assert(s[j] == b[k]);
        if k + 1 < b.len() {
            assert(s[j + 1] == b[k + 1]);
        }
        if b[k] == '{' {
            if k + 1 < b.len() && b[k + 1] == '{' {
                lemma_tag_shift(a, b, k + 2, '{', tag2, st);
            } else {
                lemma_tag_shift(a, b, k + 1, c, tag2, st);
            }
        } else if b[k] == '}' {
            if k + 1 < b.len() && b[k + 1] == '}' {
                lemma_tag_shift(a, b, k + 2, '}', tag2, st);
            } else {
                lemma_scan_shift(a, b, k + 1, apply_tag(tag2, st));
            }
        } else {
            lemma_tag_shift(a, b, k + 1, b[k], tag2, st);
        }
    }
}

/// When the scan of `a` ends with its last character closing a tag, the
/// scan of `a + b` continues into `b` from the state that `a` ends in,
/// provided `b` does not begin with `}` (which would escape that brace).
proof fn lemma_scan_end(a: Seq<char>, b: Seq<char>, i: int, st: ScanState)
    requires
        0 <= i,
        scan_end_state(a, i, st) is Some,
        b.len() > 0 ==> b[0] != '}',
    ensures
        scan(a + b, i, st) == scan(a + b, a.len() as int, scan_end_state(a, i, st).unwrap()),
    decreases a.len() - i, 1int,
{
    let s = a + b;
    assert(s[i] == a[i]);
    assert(i + 1 < a.len() ==> s[i + 1] == a[i + 1]);
    if a[i] == '{' {
        if a[i + 1] == '{' {
            lemma_scan_end(a, b, i + 2, with_char(st, '{'));
        } else {
            lemma_tag_end(a, b, i + 2, a[i + 1], seq![], flushed(st));
        }
    } else if a[i] == '}' {
        if a[i + 1] == '}' {
            lemma_scan_end(a, b, i + 2, with_char(st, '}'));
        } else {
            lemma_scan_end(a, b, i + 2, st);
        }
    } else {
        lemma_scan_end(a, b, i + 1, with_char(st, a[i]));
    }
}

proof fn lemma_tag_end(a: Seq<char>, b: Seq<char>, j: int, c: char, tag: Seq<char>, st: ScanState)
    requires
        0 <= j,
        tag_end_state(a, j, c, tag, st) is Some,
        b.len() > 0 ==> b[0] != '}',
    ensures
        tag_scan(a + b, j, c, tag, st) == scan(
            a + b,
            a.len() as int,
            tag_end_state(a, j, c, tag, st).unwrap(),
        ),
    decreases a.len() - j, 0int,
{
    let s = a + b;
    let tag2 = tag.push(c);
    assert(s[j] == a[j]);
    assert(j + 1 < a.len() ==> s[j + 1] == a[j + 1]);
    if j + 1 == a.len() && b.len() > 0 {
        assert(s[j + 1] == b[0]);
    }
    if a[j] == '{' {
        if j + 1 < a.len() && a[j + 1] == '{' {
            lemma_tag_end(a, b, j + 2, '{', tag2, st);
        } else {
            lemma_tag_end(a, b, j + 1, c, tag2, st);
        }
    } else if a[j] == '}' {
        if j + 1 < a.len() && a[j + 1] == '}' {
            lemma_tag_end(a, b, j + 2, '}', tag2, st);
        } else if j + 1 == a.len() {
        } else {
            lemma_scan_end(a, b, j + 1, apply_tag(tag2, st));
        }
    } else {
        lemma_tag_end(a, b, j + 1, a[j], tag2, st);
    }
}

/// The state that a scan ending with a closing tag ends in has no pending
/// text: the text before a tag becomes a token when the tag opens.
proof fn lemma_end_state_buffer(s: Seq<char>, i: int, st: ScanState)
    requires
        scan_end_state(s, i, st) is Some,
    ensures
        scan_end_state(s, i, st).unwrap().buffer.len() == 0,
    decreases s.len() - i, 1int,
{
    if s[i] == '{' {
        if s[i + 1] == '{' {
            lemma_end_state_buffer(s, i + 2, with_char(st, '{'));
        } else {
            lemma_tag_end_buffer(s, i + 2, s[i + 1], seq![], flushed(st));
        }
    } else if s[i] == '}' {
        if s[i + 1] == '}' {
            lemma_end_state_buffer(s, i + 2, with_char(st, '}'));
        } else {
            lemma_end_state_buffer(s, i + 2, st);
        }
    } else {
        lemma_end_state_buffer(s, i + 1, with_char(st, s[i]));
    }
}

proof fn lemma_tag_end_buffer(s: Seq<char>, j: int, c: char, tag: Seq<char>, st: ScanState)
    requires
        tag_end_state(s, j, c, tag, st) is Some,
        st.buffer.len() == 0,
    ensures
        tag_end_state(s, j, c, tag, st).unwrap().buffer.len() == 0,
    decreases s.len() - j, 0int,
{
    let tag2 = tag.push(c);
    if s[j] == '{' {
        if j + 1 < s.len() && s[j + 1] == '{' {
            lemma_tag_end_buffer(s, j + 2, '{', tag2, st);
        } else {
            lemma_tag_end_buffer(s, j + 1, c, tag2, st);
        }
    } else if s[j] == '}' {
        if j + 1 < s.len() && s[j + 1] == '}' {
            lemma_tag_end_buffer(s, j + 2, '}', tag2, st);
        } else if j + 1 == s.len() {
        } else {
            lemma_end_state_buffer(s, j + 1, apply_tag(tag2, st));
        }
    } else {
        lemma_tag_end_buffer(s, j + 1, s[j], tag2, st);
    }
}

/// Law: when the scan of `a` ends with its last character closing a tag,
/// the unicode mode is off after `a`, `b` does not begin with `}` and every
/// tag of `b` is closed, the tokens of `a + b` are those of `a` followed by
/// those of `b`.
pub proof fn lemma_tokenize_concat(a: Seq<char>, b: Seq<char>)
    requires
        scan_end_state(a, 0, initial_scan_state()) is Some,
        !scan_end_state(a, 0, initial_scan_state()).unwrap().unicode,
        b.len() > 0 ==> b[0] != '}',
        tokenize_spec(b) is Some,
    ensures
        tokenize_spec(a) is Some,
        tokenize_spec(a + b) == Some(tokenize_spec(a).unwrap() + tokenize_spec(b).unwrap()),
{
    let end = scan_end_state(a, 0, initial_scan_state()).unwrap();
    let empty = Seq::<char>::empty();
    lemma_scan_end(a, empty, 0, initial_scan_state());
    assert(a + empty =~= a);
    lemma_scan_shift(a, empty, 0, end);
    assert(tokenize_spec(a) == Some(end.tokens));
    lemma_scan_end(a, b, 0, initial_scan_state());
    lemma_scan_shift(a, b, 0, end);
    lemma_end_state_buffer(a, 0, initial_scan_state());
    lemma_scan_frame(b, 0, end);
    assert(end.buffer =~= Seq::<char>::empty());
    assert(with_tokens(end, seq![]) == initial_scan_state());
}

/// Splits a macro text into tokens, or `None` when a tag is never closed.
///
/// Text between tags becomes a `Sequence` token (a `Unicode` token after
/// `{+UNICODE}`) when the next tag opens; tags such as `{+SHIFT}` or
/// `{REPEAT}` become their tokens; `{{` and `}}` stand for braces.
pub fn try_tokenize(input: String) -> (res: Option<Vec<Token>>)
    ensures
        match res {
            Some(v) => tokenize_spec(input@) == Some(tokens_view(v@)),
            None => tokenize_spec(input@) is None,
        },
{
    let chars = string_chars(&input);
    let n = chars.len();
    let mut is_unicode = false;
    let mut token_vec: Vec<Token> = Vec::new();
    let mut buffer = String::new();
    let mut i: usize = 0;
    proof {
        assert(tokens_view(token_vec@) =~= seq![]);
    }
    while i < n
        invariant
            n == chars@.len(),
            chars@ == input@,
            i <= n,
            scan(
                chars@,
                i as int,
                ScanState { tokens: tokens_view(token_vec@), buffer: buffer@, unicode: is_unicode },
            ) == tokenize_spec(input@),
        decreases n - i,
    {
        let c = chars[i];
        if c == '{' {
            if i + 1 >= n {
                i = n;
            } else if chars[i + 1] == '{' {
                push_char(&mut buffer, '{');
                i = i + 2;
            } else {
                flush(&mut token_vec, &mut buffer, is_unicode);
                let ghost st = ScanState {
                    tokens: tokens_view(token_vec@),
                    buffer: buffer@,
                    unicode: is_unicode,
                };
                let mut tag: Vec<char> = Vec::new();
                let mut c = chars[i + 1];
                let mut j: usize = i + 2;
                loop
                    invariant_except_break
                        n == chars@.len(),
                        i + 2 <= j <= n,
                        tag_scan(chars@, j as int, c, tag@, st) == tokenize_spec(input@),
                    ensures
                        i < j <= n,
                        scan(chars@, j as int, apply_tag(tag@, st)) == tokenize_spec(input@),
                    decreases n - j,
                {
                    tag.push(c);
                    if j >= n {
                        return None;
                    }
                    let d = chars[j];
                    if d == '{' {
                        if j + 1 < n && chars[j + 1] == '{' {
                            c = '{';
                            j = j + 2;
                        } else {
                            j = j + 1;
                        }
                    } else if d == '}' {
                        if j + 1 < n && chars[j + 1] == '}' {
                            c = '}';
                            j = j + 2;
                        } else {
                            j = j + 1;
                            break ;
                        }
                    } else {
                        c = d;
                        j = j + 1;
                    }
                }
                run_tag(&tag, &mut token_vec, &mut is_unicode);
                i = j;
            }
        } else if c == '}' {
            if i + 1 >= n {
                i = n;
            } else if chars[i + 1] == '}' {
                push_char(&mut buffer, '}');
                i = i + 2;
            } else {
                i = i + 2;
            }
        } else {
            push_char(&mut buffer, c);
            i = i + 1;
        }
    }
    Some(token_vec)
}

/// Splits a macro text into tokens (see `try_tokenize`). The text must close
/// every tag it opens: on an unclosed tag the scan would never end.
pub fn tokenize(input: String) -> (res: Vec<Token>)
    requires
        tokenize_spec(input@) is Some,
    ensures
        tokenize_spec(input@) == Some(tokens_view(res@)),
{
    match try_tokenize(input) {
        Some(v) => v,
        None => Vec::new(),
    }
}

} // verus!
