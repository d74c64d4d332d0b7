use vstd::prelude::*;
use crate::mmo7::buttons::{ButtonConfig, ButtonConfigs, SpecButtonConfig, BUTTON_COUNT};
use crate::tokenizer::{
    tokenize, tokenize_spec, tokens_view, Button, Key, SpecToken, Token,
};

verus! {

/// The tokens of one button in one mode: sent when it is pressed, on every
/// report while it is held, and when it is released.
pub struct StateToken {
    pub down: Vec<Token>,
    pub repeat: Vec<Token>,
    pub up: Vec<Token>,
}

pub struct SpecStateToken {
    pub down: Seq<SpecToken>,
    pub repeat: Seq<SpecToken>,
    pub up: Seq<SpecToken>,
}

impl View for StateToken {
    type V = SpecStateToken;

    open spec fn view(&self) -> SpecStateToken {
        SpecStateToken {
            down: tokens_view(self.down@),
            repeat: tokens_view(self.repeat@),
            up: tokens_view(self.up@),
        }
    }
}

pub open spec fn empty_state_token() -> SpecStateToken {
    SpecStateToken { down: seq![], repeat: seq![], up: seq![] }
}

impl Default for StateToken {
    fn default() -> (res: Self)
        ensures
            res@ == empty_state_token(),
    {
        let res = StateToken { down: Vec::new(), repeat: Vec::new(), up: Vec::new() };
        assert(res@.down =~= seq![]);
        assert(res@.repeat =~= seq![]);
        assert(res@.up =~= seq![]);
        res
    }
}

/// The part of a macro that a token belongs to.
pub enum Section {
    Down,
    Repeat,
    Up,
}

/// A macro split at its markers: tokens before any marker are sent on press,
/// tokens after `{REPEAT}` while held, tokens after `{WAIT_UP}` on release;
/// the markers themselves are not sent.
pub open spec fn split_sections(s: Seq<SpecToken>) -> (SpecStateToken, Section)
    decreases s.len(),
{
    if s.len() == 0 {
        (empty_state_token(), Section::Down)
    } else {
        let (st, sec) = split_sections(s.drop_last());
        let t = s.last();
        match t {
            SpecToken::Repeat => (st, Section::Repeat),
            SpecToken::WaitUp => (st, Section::Up),
            _ => match sec {
                Section::Down => (
                    SpecStateToken { down: st.down.push(t), repeat: st.repeat, up: st.up },
                    sec,
                ),
                Section::Repeat => (
                    SpecStateToken { down: st.down, repeat: st.repeat.push(t), up: st.up },
                    sec,
                ),
                Section::Up => (
                    SpecStateToken { down: st.down, repeat: st.repeat, up: st.up.push(t) },
                    sec,
                ),
            },
        }
    }
}

pub open spec fn state_token_of(s: Seq<SpecToken>) -> SpecStateToken {
    split_sections(s).0
}

/// A copy of a token.
pub fn clone_token(t: &Token) -> (res: Token)
    ensures
        res@ == t@,
{
    match t {
        Token::Sequence(s) => Token::Sequence(s.clone()),
        Token::Unicode(s) => Token::Unicode(s.clone()),
        Token::KeyUp(k) => Token::KeyUp(*k),
        Token::KeyDown(k) => Token::KeyDown(*k),
        Token::MouseUp(b) => Token::MouseUp(*b),
        Token::MouseDown(b) => Token::MouseDown(*b),
        Token::Click(b) => Token::Click(*b),
        Token::WaitUp => Token::WaitUp,
        Token::Repeat => Token::Repeat,
    }
}

proof fn lemma_push_view(v: Seq<Token>, t: Token)
    ensures
        tokens_view(v.push(t)) == tokens_view(v).push(t@),
{
    assert(tokens_view(v.push(t)) =~= tokens_view(v).push(t@));
}

impl StateToken {
    /// Splits the tokens of a macro at its `{REPEAT}` and `{WAIT_UP}` markers.
    pub fn from_tokens(tokens: &Vec<Token>) -> (res: StateToken)
        ensures
            res@ == state_token_of(tokens_view(tokens@)),
    {
        let mut res = StateToken::default();
        let mut sec = Section::Down;
        let mut i: usize = 0;
        while i < tokens.len()
            invariant
                i <= tokens@.len(),
                split_sections(tokens_view(tokens@).subrange(0, i as int)) == (res@, sec),
            decreases tokens.len() - i,
        {
            let ghost prefix = tokens_view(tokens@).subrange(0, i as int);
            assert(tokens_view(tokens@).subrange(0, i + 1).drop_last() =~= prefix);
            let t = clone_token(&tokens[i]);
            match t {
                Token::Repeat => {
                    sec = Section::Repeat;
                },
                Token::WaitUp => {
                    sec = Section::Up;
                },
                _ => {
                    match sec {
                        Section::Down => {
                            let ghost before = res.down@;
                            res.down.push(t);
                            proof {
                                lemma_push_view(before, t);
                            }
                        },
                        Section::Repeat => {
                            let ghost before = res.repeat@;
                            res.repeat.push(t);
                            proof {
                                lemma_push_view(before, t);
                            }
                        },
                        Section::Up => {
                            let ghost before = res.up@;
                            res.up.push(t);
                            proof {
                                lemma_push_view(before, t);
                            }
                        },
                    }
                },
            }
            i = i + 1;
        }
        assert(tokens_view(tokens@).subrange(0, tokens@.len() as int) =~= tokens_view(tokens@));
        res
    }
}

/// The tokens of one button: `[normal modes, shift modes]`, three modes each.
pub type ButtonConfigToken = [[StateToken; 3]; 2];

pub open spec fn button_config_token_view(b: ButtonConfigToken) -> Seq<Seq<SpecStateToken>> {
    Seq::new(2, |t: int| Seq::new(3, |m: int| b[t][m]@))
}

/// Every macro of the button that is used (the first three of each list)
/// closes the tags it opens.
pub open spec fn config_tokenizable(c: SpecButtonConfig) -> bool {
    forall|t: int, m: int|
        0 <= t < 2 && 0 <= m < 3 && m < c[t].len() ==> (#[trigger] tokenize_spec(c[t][m])) is Some
}

/// The tokens of a button's macro for one mode; a mode without a macro has
/// no tokens.
pub open spec fn config_state_token(c: SpecButtonConfig, t: int, m: int) -> SpecStateToken {
    if m < c[t].len() {
        state_token_of(tokenize_spec(c[t][m]).unwrap())
    } else {
        empty_state_token()
    }
}

pub open spec fn config_token_spec(c: SpecButtonConfig) -> Seq<Seq<SpecStateToken>> {
    Seq::new(2, |t: int| Seq::new(3, |m: int| config_state_token(c, t, m)))
}

fn tokenize_entry(config: &ButtonConfig, t: usize, m: usize) -> (res: StateToken)
    requires
        t < 2,
        m < 3,
        config_tokenizable(config.deep_view()),
    ensures
        res@ == config_state_token(config.deep_view(), t as int, m as int),
{
    let list = &config[t];
    assert(list.deep_view() == config.deep_view()[t as int]);
    if m < list.len() {
        assert(list@[m as int]@ == config.deep_view()[t as int][m as int]);
        let tokens = tokenize(list[m].clone());
        StateToken::from_tokens(&tokens)
    } else {
        StateToken::default()
    }
}

/// The tokens of every mode of a button, from its macros.
pub fn tokenize_button_config(config: &ButtonConfig) -> (res: ButtonConfigToken)
    requires
        config_tokenizable(config.deep_view()),
    ensures
        button_config_token_view(res) == config_token_spec(config.deep_view()),
{
    let res = [
        [tokenize_entry(config, 0, 0), tokenize_entry(config, 0, 1), tokenize_entry(config, 0, 2)],
        [tokenize_entry(config, 1, 0), tokenize_entry(config, 1, 1), tokenize_entry(config, 1, 2)],
    ];
    assert(button_config_token_view(res) =~~= config_token_spec(config.deep_view()));
    res
}

/// The tokens of every button, in the profile's order.
pub struct ButtonConfigsToken {
    pub scroll_button: ButtonConfigToken,
    pub left_actionlock: ButtonConfigToken,
    pub right_actionlock: ButtonConfigToken,
    pub forwards_button: ButtonConfigToken,
    pub back_button: ButtonConfigToken,
    pub thumb_anticlockwise: ButtonConfigToken,
    pub thumb_clockwise: ButtonConfigToken,
    pub hat_top: ButtonConfigToken,
    pub hat_left: ButtonConfigToken,
    pub hat_right: ButtonConfigToken,
    pub hat_bottom: ButtonConfigToken,
    pub button_1: ButtonConfigToken,
    pub precision_aim: ButtonConfigToken,
    pub button_2: ButtonConfigToken,
    pub button_3: ButtonConfigToken,
}

impl View for ButtonConfigsToken {
    type V = Seq<Seq<Seq<SpecStateToken>>>;

    open spec fn view(&self) -> Seq<Seq<Seq<SpecStateToken>>> {
        seq![
            button_config_token_view(self.scroll_button),
            button_config_token_view(self.left_actionlock),
            button_config_token_view(self.right_actionlock),
            button_config_token_view(self.forwards_button),
            button_config_token_view(self.back_button),
            button_config_token_view(self.thumb_anticlockwise),
            button_config_token_view(self.thumb_clockwise),
            button_config_token_view(self.hat_top),
            button_config_token_view(self.hat_left),
            button_config_token_view(self.hat_right),
            button_config_token_view(self.hat_bottom),
            button_config_token_view(self.button_1),
            button_config_token_view(self.precision_aim),
            button_config_token_view(self.button_2),
            button_config_token_view(self.button_3),
        ]
    }
}

/// Every used macro of the profile closes the tags it opens.
pub open spec fn profile_tokenizable(p: Seq<SpecButtonConfig>) -> bool {
    forall|i: int| 0 <= i < p.len() ==> config_tokenizable(#[trigger] p[i])
}

impl ButtonConfigsToken {
    /// The tokens of every button of a profile.
    pub fn from_config(button_configs: ButtonConfigs) -> (res: Self)
        requires
            profile_tokenizable(button_configs@),
        ensures
            res@ == Seq::new(
                BUTTON_COUNT as nat,
                |i: int| config_token_spec(button_configs@[i]),
            ),
    {
        let b = &button_configs;
        assert(config_tokenizable(b@[0]));
        assert(config_tokenizable(b@[1]));
        assert(config_tokenizable(b@[2]));
        assert(config_tokenizable(b@[3]));
        assert(config_tokenizable(b@[4]));
        assert(config_tokenizable(b@[5]));
        assert(config_tokenizable(b@[6]));
        assert(config_tokenizable(b@[7]));
        assert(config_tokenizable(b@[8]));
        assert(config_tokenizable(b@[9]));
        assert(config_tokenizable(b@[10]));
        assert(config_tokenizable(b@[11]));
        assert(config_tokenizable(b@[12]));
        assert(config_tokenizable(b@[13]));
        assert(config_tokenizable(b@[14]));
        let res = ButtonConfigsToken {
            scroll_button: tokenize_button_config(&b.scroll_button),
            left_actionlock: tokenize_button_config(&b.left_actionlock),
            right_actionlock: tokenize_button_config(&b.right_actionlock),
            forwards_button: tokenize_button_config(&b.forwards_button),
            back_button: tokenize_button_config(&b.back_button),
            thumb_anticlockwise: tokenize_button_config(&b.thumb_anticlockwise),
            thumb_clockwise: tokenize_button_config(&b.thumb_clockwise),
            hat_top: tokenize_button_config(&b.hat_top),
            hat_left: tokenize_button_config(&b.hat_left),
            hat_right: tokenize_button_config(&b.hat_right),
            hat_bottom: tokenize_button_config(&b.hat_bottom),
            button_1: tokenize_button_config(&b.button_1),
            precision_aim: tokenize_button_config(&b.precision_aim),
            button_2: tokenize_button_config(&b.button_2),
            button_3: tokenize_button_config(&b.button_3),
        };
        assert(res@ =~= Seq::new(
            BUTTON_COUNT as nat,
            |i: int| config_token_spec(button_configs@[i]),
        ));
        res
    }

    /// The tokens of the button at a profile position.
    pub fn get(&self, index: usize) -> (res: &ButtonConfigToken)
        requires
            index < BUTTON_COUNT,
        ensures
            button_config_token_view(*res) == self@[index as int],
    {
        match index {
            0 => &self.scroll_button,
            1 => &self.left_actionlock,
            2 => &self.right_actionlock,
            3 => &self.forwards_button,
            4 => &self.back_button,
            5 => &self.thumb_anticlockwise,
            6 => &self.thumb_clockwise,
            7 => &self.hat_top,
            8 => &self.hat_left,
            9 => &self.hat_right,
            10 => &self.hat_bottom,
            11 => &self.button_1,
            12 => &self.precision_aim,
            13 => &self.button_2,
            _ => &self.button_3,
        }
    }
}

/// Whether a profile's used macros all close the tags they open.
pub fn profile_is_tokenizable(button_configs: &ButtonConfigs) -> (res: bool)
    ensures
        res == profile_tokenizable(button_configs@),
{
    let list = button_configs.to_config();
    let mut i: usize = 0;
    while i < list.len()
        invariant
            list.deep_view() == button_configs@,
            i <= list@.len(),
            forall|k: int| 0 <= k < i ==> config_tokenizable(#[trigger] button_configs@[k]),
        decreases list.len() - i,
    {
        let entry = &list[i];
        assert(entry.deep_view() == button_configs@[i as int]);
        let mut t: usize = 0;
        while t < 2
            invariant
                0 <= i < button_configs@.len(),
                entry.deep_view() == button_configs@[i as int],
                t <= 2,
                forall|a: int, m: int|
                    0 <= a < t && 0 <= m < 3 && m < entry.deep_view()[a].len() ==> (
                    #[trigger] tokenize_spec(entry.deep_view()[a][m])) is Some,
            decreases 2 - t,
        {
            let texts = &entry[t];
            assert(texts.deep_view() == entry.deep_view()[t as int]);
            let mut m: usize = 0;
            while m < 3 && m < texts.len()
                invariant
                    0 <= i < button_configs@.len(),
                    t < 2,
                    entry.deep_view() == button_configs@[i as int],
                    texts.deep_view() == entry.deep_view()[t as int],
                    m <= 3,
                    forall|a: int, m2: int|
                        0 <= a < t && 0 <= m2 < 3 && m2 < entry.deep_view()[a].len() ==> (
                        #[trigger] tokenize_spec(entry.deep_view()[a][m2])) is Some,
                    forall|m2: int|
                        0 <= m2 < m && m2 < texts@.len() ==> (#[trigger] tokenize_spec(
                            entry.deep_view()[t as int][m2],
                        )) is Some,
                decreases 3 - m,
            {
                assert(texts@[m as int]@ == entry.deep_view()[t as int][m as int]);
                if crate::tokenizer::try_tokenize(texts[m].clone()).is_none() {
                    let ghost c = button_configs@[i as int];
                    assert(tokenize_spec(c[t as int][m as int]) is None);
                    assert(m < c[t as int].len());
                    assert(!config_tokenizable(c));
                    return false;
                }
                m = m + 1;
            }
            t = t + 1;
        }
        i = i + 1;
    }
    true
}

/// The mouse's mode: one of three normal or three shift modes.
#[derive(Clone, Copy, Debug, PartialEq, Eq)]
pub enum Mode {
    Normal(u8),
    Shift(u8),
}

/// Which of the left, right and middle buttons are down.
#[derive(Clone, Copy, Debug, PartialEq, Eq)]
pub struct ClickState {
    pub left: bool,
    pub right: bool,
    pub middle: bool,
}

/// Which programmable buttons are down.
#[derive(Clone, Copy, Debug, PartialEq, Eq)]
pub struct ButtonState {
    pub scroll_button: bool,
    pub left_actionlock: bool,
    pub right_actionlock: bool,
    pub forwards_button: bool,
    pub back_button: bool,
    pub thumb_anticlockwise: bool,
    pub thumb_clockwise: bool,
    pub hat_top: bool,
    pub hat_left: bool,
    pub hat_right: bool,
    pub hat_bottom: bool,
    pub button_1: bool,
    pub precision_aim: bool,
    pub button_2: bool,
    pub button_3: bool,
}

impl View for ButtonState {
    type V = Seq<bool>;

    /// The buttons' states in the profile's order.
    open spec fn view(&self) -> Seq<bool> {
        seq![
            self.scroll_button,
            self.left_actionlock,
            self.right_actionlock,
            self.forwards_button,
            self.back_button,
            self.thumb_anticlockwise,
            self.thumb_clockwise,
            self.hat_top,
            self.hat_left,
            self.hat_right,
            self.hat_bottom,
            self.button_1,
            self.precision_aim,
            self.button_2,
            self.button_3,
        ]
    }
}

impl ButtonState {
    pub fn released() -> (res: Self)
        ensures
            res@ == Seq::new(BUTTON_COUNT as nat, |i: int| false),
    {
        let res = ButtonState {
            scroll_button: false,
            left_actionlock: false,
            right_actionlock: false,
            forwards_button: false,
            back_button: false,
            thumb_anticlockwise: false,
            thumb_clockwise: false,
            hat_top: false,
            hat_left: false,
            hat_right: false,
            hat_bottom: false,
            button_1: false,
            precision_aim: false,
            button_2: false,
            button_3: false,
        };
        assert(res@ =~= Seq::new(BUTTON_COUNT as nat, |i: int| false));
        res
    }

    /// The state of the button at a profile position.
    pub fn get(&self, index: usize) -> (res: bool)
        requires
            index < BUTTON_COUNT,
        ensures
            res == self@[index as int],
    {
        match index {
            0 => self.scroll_button,
            1 => self.left_actionlock,
            2 => self.right_actionlock,
            3 => self.forwards_button,
            4 => self.back_button,
            5 => self.thumb_anticlockwise,
            6 => self.thumb_clockwise,
            7 => self.hat_top,
            8 => self.hat_left,
            9 => self.hat_right,
            10 => self.hat_bottom,
            11 => self.button_1,
            12 => self.precision_aim,
            13 => self.button_2,
            _ => self.button_3,
        }
    }
}

/// A mouse button that the emulator can press.
#[derive(Clone, Copy, Debug, PartialEq, Eq)]
pub enum MouseButton {
    Left,
    Middle,
    Right,
}

/// A key that the emulator can press.
#[derive(Clone, Copy, Debug, PartialEq, Eq)]
pub enum EmulatedKey {
    Shift,
    Control,
    Alt,
    Meta,
}

/// One input event to emulate. `KeyClicks` clicks each character of the text
/// in turn as a key of the keyboard layout; `KeySequence` types the text.
#[derive(Clone, Debug, PartialEq, Eq)]
pub enum Action {
    MouseDown(MouseButton),
    MouseUp(MouseButton),
    MouseMoveRelative(i32, i32),
    MouseScrollY(i32),
    KeyClicks(String),
    KeySequence(String),
    KeyDown(EmulatedKey),
    KeyUp(EmulatedKey),
}

pub enum SpecAction {
    MouseDown(MouseButton),
    MouseUp(MouseButton),
    MouseMoveRelative(i32, i32),
    MouseScrollY(i32),
    KeyClicks(Seq<char>),
    KeySequence(Seq<char>),
    KeyDown(EmulatedKey),
    KeyUp(EmulatedKey),
}

impl View for Action {
    type V = SpecAction;

    open spec fn view(&self) -> SpecAction {
        match self {
            Action::MouseDown(b) => SpecAction::MouseDown(*b),
            Action::MouseUp(b) => SpecAction::MouseUp(*b),
            Action::MouseMoveRelative(x, y) => SpecAction::MouseMoveRelative(*x, *y),
            Action::MouseScrollY(n) => SpecAction::MouseScrollY(*n),
            Action::KeyClicks(s) => SpecAction::KeyClicks(s@),
            Action::KeySequence(s) => SpecAction::KeySequence(s@),
            Action::KeyDown(k) => SpecAction::KeyDown(*k),
            Action::KeyUp(k) => SpecAction::KeyUp(*k),
        }
    }
}

pub open spec fn actions_view(v: Seq<Action>) -> Seq<SpecAction> {
    v.map_values(|a: Action| a@)
}

pub open spec fn emulated_key(k: Key) -> EmulatedKey {
    match k {
        Key::Shift => EmulatedKey::Shift,
        Key::Control => EmulatedKey::Control,
        Key::Alt => EmulatedKey::Alt,
        Key::Command => EmulatedKey::Meta,
    }
}

/// The mouse button of a token's button; the wheel directions have none.
pub open spec fn pressable(b: Button) -> Option<MouseButton> {
    match b {
        Button::Left => Some(MouseButton::Left),
        Button::Middle => Some(MouseButton::Middle),
        Button::Right => Some(MouseButton::Right),
        _ => None,
    }
}

/// The input that one token emulates: the characters of a sequence are
/// clicked one by one as keys of the layout, a unicode text is typed at once, keys and
/// buttons go up or down, a wheel click scrolls by one; markers do nothing.
pub open spec fn token_actions(t: SpecToken) -> Seq<SpecAction> {
    match t {
        SpecToken::Sequence(s) => seq![SpecAction::KeyClicks(s)],
        SpecToken::Unicode(s) => seq![SpecAction::KeySequence(s)],
        SpecToken::KeyUp(k) => seq![SpecAction::KeyUp(emulated_key(k))],
        SpecToken::KeyDown(k) => seq![SpecAction::KeyDown(emulated_key(k))],
        SpecToken::MouseUp(b) => match pressable(b) {
            Some(m) => seq![SpecAction::MouseUp(m)],
            None => seq![],
        },
        SpecToken::MouseDown(b) => match pressable(b) {
            Some(m) => seq![SpecAction::MouseDown(m)],
            None => seq![],
        },
        SpecToken::Click(b) => match b {
            Button::ScrollUp => seq![SpecAction::MouseScrollY(1i32)],
            Button::ScrollDown => seq![SpecAction::MouseScrollY(-1i32)],
            _ => seq![],
        },
        SpecToken::WaitUp => seq![],
        SpecToken::Repeat => seq![],
    }
}

pub open spec fn tokens_actions(s: Seq<SpecToken>) -> Seq<SpecAction>
    decreases s.len(),
{
    if s.len() == 0 {
        seq![]
    } else {
        tokens_actions(s.drop_last()) + token_actions(s.last())
    }
}

fn key_to_enigo(key: Key) -> (res: EmulatedKey)
    ensures
        res == emulated_key(key),
{
    match key {
        Key::Shift => EmulatedKey::Shift,
        Key::Control => EmulatedKey::Control,
        Key::Alt => EmulatedKey::Alt,
        Key::Command => EmulatedKey::Meta,
    }
}

proof fn lemma_actions_push(v: Seq<Action>, a: Action)
    ensures
        actions_view(v.push(a)) == actions_view(v).push(a@),
{
    assert(actions_view(v.push(a)) =~= actions_view(v).push(a@));
}

fn push_action(out: &mut Vec<Action>, a: Action)
    ensures
        actions_view(final(out)@) == actions_view(old(out)@).push(a@),
{
    let ghost before = out@;
    out.push(a);
    proof {
        lemma_actions_push(before, a);
    }
}

fn emulate_token(token: &Token, out: &mut Vec<Action>)
    ensures
        actions_view(final(out)@) == actions_view(old(out)@) + token_actions(token@),
{
    let ghost start = actions_view(out@);
    match token {
        Token::Sequence(sequence) => {
            push_action(out, Action::KeyClicks(sequence.clone()));
            assert(actions_view(out@) =~= start + token_actions(token@));
        },
        Token::Unicode(unicode_sequence) => {
            push_action(out, Action::KeySequence(unicode_sequence.clone()));
            assert(actions_view(out@) =~= start + token_actions(token@));
        },
        Token::KeyUp(key) => {
            push_action(out, Action::KeyUp(key_to_enigo(*key)));
            assert(actions_view(out@) =~= start + token_actions(token@));
        },
        Token::KeyDown(key) => {
            push_action(out, Action::KeyDown(key_to_enigo(*key)));
            assert(actions_view(out@) =~= start + token_actions(token@));
        },
        Token::MouseUp(button) => {
            match button {
                Button::Left => push_action(out, Action::MouseUp(MouseButton::Left)),
                Button::Middle => push_action(out, Action::MouseUp(MouseButton::Middle)),
                Button::Right => push_action(out, Action::MouseUp(MouseButton::Right)),
                _ => {},
            }
            assert(actions_view(out@) =~= start + token_actions(token@));
        },
        Token::MouseDown(button) => {
            match button {
                Button::Left => push_action(out, Action::MouseDown(MouseButton::Left)),
                Button::Middle => push_action(out, Action::MouseDown(MouseButton::Middle)),
                Button::Right => push_action(out, Action::MouseDown(MouseButton::Right)),
                _ => {},
            }
            assert(actions_view(out@) =~= start + token_actions(token@));
        },
        Token::Click(button) => {
            match button {
                Button::ScrollUp => push_action(out, Action::MouseScrollY(1)),
                Button::ScrollDown => push_action(out, Action::MouseScrollY(-1)),
                _ => {},
            }
            assert(actions_view(out@) =~= start + token_actions(token@));
        },
        _ => {
            assert(actions_view(out@) =~= start + token_actions(token@));
        },
    }
}

/// Appends the input that a list of tokens emulates.
pub fn emulate_token_vec(token_vec: &Vec<Token>, out: &mut Vec<Action>)
    ensures
        actions_view(final(out)@) == actions_view(old(out)@) + tokens_actions(
            tokens_view(token_vec@),
        ),
{
    let ghost start = actions_view(out@);
    let mut i: usize = 0;
    while i < token_vec.len()
        invariant
            i <= token_vec@.len(),
            actions_view(out@) == start + tokens_actions(
                tokens_view(token_vec@).subrange(0, i as int),
            ),
        decreases token_vec.len() - i,
    {
        let ghost s = tokens_view(token_vec@).subrange(0, i + 1);
        assert(s.drop_last() =~= tokens_view(token_vec@).subrange(0, i as int));
        emulate_token(&token_vec[i], out);
        assert(actions_view(out@) =~= start + tokens_actions(s));
        i = i + 1;
    }
    assert(tokens_view(token_vec@).subrange(0, token_vec@.len() as int) =~= tokens_view(
        token_vec@,
    ));
}

/// The mode that a report's third byte selects: its low three bits give
/// normal modes 0 to 2 and shift modes 0 to 2 (values 4 to 6); other values
/// select normal mode 0.
pub open spec fn mode_of(b: u8) -> Mode {
    let m = b & 7u8;
    if m == 0 || m == 1 || m == 2 {
        Mode::Normal(m)
    } else if m == 4 || m == 5 || m == 6 {
        Mode::Shift((m - 4) as u8)
    } else {
        Mode::Normal(0)
    }
}

pub open spec fn is_shift(mode: Mode) -> bool {
    match mode {
        Mode::Normal(_) => false,
        Mode::Shift(_) => true,
    }
}

pub open spec fn absolute(mode: Mode) -> u8 {
    match mode {
        Mode::Normal(m) => m,
        Mode::Shift(m) => m,
    }
}

/// The tokens of a button for a mode.
pub open spec fn state_token_in(b: Seq<Seq<SpecStateToken>>, mode: Mode) -> SpecStateToken {
    b[if is_shift(mode) {
        1int
    } else {
        0int
    }][absolute(mode) as int]
}

/// A mode without any token for the button.
pub open spec fn is_unmapped(st: SpecStateToken) -> bool {
    st.down.len() == 0 && st.repeat.len() == 0 && st.up.len() == 0
}

/// Pressing or releasing a mouse button when its state changes.
pub open spec fn press_actions(prev: bool, cur: bool, button: MouseButton) -> Seq<SpecAction> {
    if cur != prev {
        if cur {
            seq![SpecAction::MouseDown(button)]
        } else {
            seq![SpecAction::MouseUp(button)]
        }
    } else {
        seq![]
    }
}

/// A movement byte read as a two's complement number.
pub open spec fn signed_delta(b: u8) -> i32 {
    if b < 128 {
        b as i32
    } else {
        (b as int - 256) as i32
    }
}

/// The wheel byte: 1 scrolls down by one, 255 up by one.
pub open spec fn wheel_actions(b: u8) -> Seq<SpecAction> {
    if b == 1 {
        seq![SpecAction::MouseScrollY(-1i32)]
    } else if b == 255 {
        seq![SpecAction::MouseScrollY(1i32)]
    } else {
        seq![]
    }
}

/// The left, right and middle buttons of a report (bits 0, 1, 2 of byte 0).
pub open spec fn click_of(buffer: Seq<u8>) -> ClickState {
    ClickState { left: buffer[0] & 1u8 > 0, right: buffer[0] & 2u8 > 0, middle: buffer[0] & 4u8 > 0 }
}

/// The plain mouse part of a report: the left button, the middle button
/// (only when the scroll button has no macro in the mode), the right button,
/// the movement (bytes 3 and 5) and the wheel (byte 7).
pub open spec fn basic_actions(prev: ClickState, buffer: Seq<u8>, middle_free: bool) -> Seq<
    SpecAction,
> {
    let cur = click_of(buffer);
    press_actions(prev.left, cur.left, MouseButton::Left) + (if middle_free {
        press_actions(prev.middle, cur.middle, MouseButton::Middle)
    } else {
        seq![]
    }) + press_actions(prev.right, cur.right, MouseButton::Right) + seq![
        SpecAction::MouseMoveRelative(signed_delta(buffer[3]), signed_delta(buffer[5])),
    ] + wheel_actions(buffer[7])
}

/// The plain buttons' state after a report.
pub open spec fn next_click_state(prev: ClickState, buffer: Seq<u8>, middle_free: bool) -> ClickState {
    let cur = click_of(buffer);
    ClickState {
        left: cur.left,
        right: cur.right,
        middle: if middle_free {
            cur.middle
        } else {
            prev.middle
        },
    }
}

/// The programmable buttons of a report, in the profile's order.
pub open spec fn decode_buttons(buffer: Seq<u8>) -> Seq<bool> {
    seq![
        buffer[2] & 8u8 > 0,
        buffer[2] & 16u8 > 0,
        buffer[2] & 32u8 > 0,
        buffer[0] & 16u8 > 0,
        buffer[0] & 8u8 > 0,
        buffer[1] & 64u8 > 0,
        buffer[1] & 32u8 > 0,
        buffer[1] & 1u8 > 0,
        buffer[1] & 4u8 > 0,
        buffer[1] & 8u8 > 0,
        buffer[1] & 2u8 > 0,
        buffer[0] & 32u8 > 0,
        buffer[1] & 16u8 > 0,
        buffer[0] & 64u8 > 0,
        buffer[0] & 128u8 > 0,
    ]
}

/// The order in which the programmable buttons are handled, as profile
/// positions: back, forwards, buttons 1 to 3, hat top, bottom, left, right,
/// precision aim, thumb clockwise and anticlockwise, scroll button, left and
/// right action lock.
pub open spec fn emulation_order() -> Seq<int> {
    seq![4, 3, 11, 13, 14, 7, 10, 8, 9, 12, 6, 5, 0, 1, 2]
}

/// What a programmable button sends in one report: its press tokens when it
/// goes down, its release tokens when it goes up, and its repeat tokens on
/// every report while it is down.
pub open spec fn button_actions(st: SpecStateToken, prev: bool, cur: bool) -> Seq<SpecAction> {
    (if cur != prev {
        if cur {
            tokens_actions(st.down)
        } else {
            tokens_actions(st.up)
        }
    } else {
        seq![]
    }) + (if cur {
        tokens_actions(st.repeat)
    } else {
        seq![]
    })
}

/// What the first `n` programmable buttons, in handling order, send.
pub open spec fn mapped_actions(
    tokens: Seq<Seq<Seq<SpecStateToken>>>,
    mode: Mode,
    prev: Seq<bool>,
    cur: Seq<bool>,
    n: nat,
) -> Seq<SpecAction>
    decreases n,
{
    if n == 0 {
        seq![]
    } else {
        let k = emulation_order()[n - 1];
        mapped_actions(tokens, mode, prev, cur, (n - 1) as nat) + button_actions(
            state_token_in(tokens[k], mode),
            prev[k],
            cur[k],
        )
    }
}

fn press_button(prev: bool, cur: bool, button: MouseButton, out: &mut Vec<Action>)
    ensures
        actions_view(final(out)@) == actions_view(old(out)@) + press_actions(prev, cur, button),
{
    let ghost start = actions_view(out@);
    if cur != prev {
        if cur {
            push_action(out, Action::MouseDown(button));
        } else {
            push_action(out, Action::MouseUp(button));
        }
    }
    assert(actions_view(out@) =~= start + press_actions(prev, cur, button));
}

fn push_wheel(b: u8, out: &mut Vec<Action>)
    ensures
        actions_view(final(out)@) == actions_view(old(out)@) + wheel_actions(b),
{
    let ghost start = actions_view(out@);
    if b == 1 {
        push_action(out, Action::MouseScrollY(-1));
    } else if b == 255 {
        push_action(out, Action::MouseScrollY(1));
    }
    assert(actions_view(out@) =~= start + wheel_actions(b));
}

fn signed_byte(b: u8) -> (res: i32)
    ensures
        res == signed_delta(b),
{
    if b < 128 {
        b as i32
    } else {
        b as i32 - 256
    }
}

/// The programmable buttons of a report.
fn decode_report_buttons(buffer: &[u8]) -> (res: ButtonState)
    requires
        buffer@.len() >= 3,
    ensures
        res@ == decode_buttons(buffer@),
        res.hat_left == ((buffer@[1] & 0x04u8) != 0u8),
        res.hat_right == ((buffer@[1] & 0x08u8) != 0u8),
{
    let res = ButtonState {
        back_button: (buffer[0] & 8) > 0,
        forwards_button: (buffer[0] & 16) > 0,
        button_1: (buffer[0] & 32) > 0,
        button_2: (buffer[0] & 64) > 0,
        button_3: (buffer[0] & 128) > 0,
        hat_top: (buffer[1] & 1) > 0,
        hat_bottom: (buffer[1] & 2) > 0,
        hat_left: (buffer[1] & 4) > 0,
        hat_right: (buffer[1] & 8) > 0,
        precision_aim: (buffer[1] & 16) > 0,
        thumb_clockwise: (buffer[1] & 32) > 0,
        thumb_anticlockwise: (buffer[1] & 64) > 0,
        scroll_button: (buffer[2] & 8) > 0,
        left_actionlock: (buffer[2] & 16) > 0,
        right_actionlock: (buffer[2] & 32) > 0,
    };
    assert(res@ =~= decode_buttons(buffer@));
    res
}

fn emulation_order_array() -> (res: [usize; 15])
    ensures
        forall|i: int| 0 <= i < 15 ==> res@[i] as int == #[trigger] emulation_order()[i],
        forall|i: int| 0 <= i < 15 ==> 0 <= #[trigger] emulation_order()[i] < 15,
{
    let res: [usize; 15] = [4, 3, 11, 13, 14, 7, 10, 8, 9, 12, 6, 5, 0, 1, 2];
    assert(forall|i: int| 0 <= i < 15 ==> res@[i] as int == #[trigger] emulation_order()[i]);
    res
}

proof fn lemma_add_assoc<A>(a: Seq<A>, b: Seq<A>, c: Seq<A>)
    ensures
        (a + b) + c == a + (b + c),
{
    assert((a + b) + c =~= a + (b + c));
}

proof fn lemma_concat5<A>(s: Seq<A>, a: Seq<A>, b: Seq<A>, c: Seq<A>, d: Seq<A>, e: Seq<A>)
    ensures
        ((((s + a) + b) + c) + d) + e == s + ((((a + b) + c) + d) + e),
{
    assert(((((s + a) + b) + c) + d) + e =~= s + ((((a + b) + c) + d) + e));
}

/// Law: a button that stays up sends nothing; one that stays down sends
/// its repeat tokens on every report; pressing it sends its press tokens
/// and then its repeat tokens; releasing it sends its release tokens.
pub proof fn lemma_button_transitions(st: SpecStateToken)
    ensures
        button_actions(st, false, false) == Seq::<SpecAction>::empty(),
        button_actions(st, true, true) == tokens_actions(st.repeat),
        button_actions(st, false, true) == tokens_actions(st.down) + tokens_actions(st.repeat),
        button_actions(st, true, false) == tokens_actions(st.up),
{
    assert(button_actions(st, false, false) =~= Seq::<SpecAction>::empty());
    assert(button_actions(st, true, true) =~= tokens_actions(st.repeat));
    assert(button_actions(st, true, false) =~= tokens_actions(st.up));
}

/// Law: a report whose motion bytes are zero moves the pointer by
/// nothing, and zeroing them keeps the mode, the plain buttons and the
/// programmable buttons of the report.
pub proof fn lemma_still_report(buffer: Seq<u8>)
    requires
        buffer.len() >= 8,
    ensures
        ({
            let still = buffer.update(3, 0).update(5, 0);
            &&& signed_delta(still[3]) == 0 && signed_delta(still[5]) == 0
            &&& mode_of(still[2]) == mode_of(buffer[2])
            &&& click_of(still) == click_of(buffer)
            &&& decode_buttons(still) == decode_buttons(buffer)
            &&& still[7] == buffer[7]
        }),
{
    let still = buffer.update(3, 0).update(5, 0);
    assert(still[0] == buffer[0] && still[1] == buffer[1] && still[2] == buffer[2]);
    assert(decode_buttons(still) =~= decode_buttons(buffer));
}

/// Law: each programmable button is read from its own bit of the report.
/// Byte 0 holds back (0x08), forwards (0x10), buttons 1 to 3 (0x20, 0x40,
/// 0x80); byte 1 holds the hat's top (0x01), bottom (0x02), left (0x04) and
/// right (0x08), precision aim (0x10), thumb clockwise (0x20) and
/// anticlockwise (0x40); byte 2 holds the scroll button (0x08) and the left
/// and right action locks (0x10, 0x20). The positions are the profile's.
pub proof fn lemma_report_button_bits(buffer: Seq<u8>)
    requires
        buffer.len() >= 3,
    ensures
        decode_buttons(buffer).len() == BUTTON_COUNT,
        decode_buttons(buffer)[0] == ((buffer[2] & 0x08u8) != 0u8),
        decode_buttons(buffer)[1] == ((buffer[2] & 0x10u8) != 0u8),
        decode_buttons(buffer)[2] == ((buffer[2] & 0x20u8) != 0u8),
        decode_buttons(buffer)[3] == ((buffer[0] & 0x10u8) != 0u8),
        decode_buttons(buffer)[4] == ((buffer[0] & 0x08u8) != 0u8),
        decode_buttons(buffer)[5] == ((buffer[1] & 0x40u8) != 0u8),
        decode_buttons(buffer)[6] == ((buffer[1] & 0x20u8) != 0u8),
        decode_buttons(buffer)[7] == ((buffer[1] & 0x01u8) != 0u8),
        decode_buttons(buffer)[8] == ((buffer[1] & 0x04u8) != 0u8),
        decode_buttons(buffer)[9] == ((buffer[1] & 0x08u8) != 0u8),
        decode_buttons(buffer)[10] == ((buffer[1] & 0x02u8) != 0u8),
        decode_buttons(buffer)[11] == ((buffer[0] & 0x20u8) != 0u8),
        decode_buttons(buffer)[12] == ((buffer[1] & 0x10u8) != 0u8),
        decode_buttons(buffer)[13] == ((buffer[0] & 0x40u8) != 0u8),
        decode_buttons(buffer)[14] == ((buffer[0] & 0x80u8) != 0u8),
{
}

/// Law: a macro's keys are the same physical keys when emulated: Shift,
/// Control and Alt stay themselves and Command is the Meta key; no two keys
/// are emulated as one, and pressing or releasing a key in a macro presses
/// or releases exactly that key.
pub proof fn lemma_emulated_keys(k1: Key, k2: Key)
    ensures
        emulated_key(Key::Shift) == EmulatedKey::Shift,
        emulated_key(Key::Control) == EmulatedKey::Control,
        emulated_key(Key::Alt) == EmulatedKey::Alt,
        emulated_key(Key::Command) == EmulatedKey::Meta,
        k1 != k2 ==> emulated_key(k1) != emulated_key(k2),
        token_actions(SpecToken::KeyDown(Key::Shift)) == seq![SpecAction::KeyDown(EmulatedKey::Shift)],
        token_actions(SpecToken::KeyUp(Key::Shift)) == seq![SpecAction::KeyUp(EmulatedKey::Shift)],
        token_actions(SpecToken::KeyDown(Key::Control)) == seq![
            SpecAction::KeyDown(EmulatedKey::Control),
        ],
        token_actions(SpecToken::KeyUp(Key::Control)) == seq![SpecAction::KeyUp(EmulatedKey::Control)],
        token_actions(SpecToken::KeyDown(Key::Alt)) == seq![SpecAction::KeyDown(EmulatedKey::Alt)],
        token_actions(SpecToken::KeyUp(Key::Alt)) == seq![SpecAction::KeyUp(EmulatedKey::Alt)],
        token_actions(SpecToken::KeyDown(Key::Command)) == seq![SpecAction::KeyDown(EmulatedKey::Meta)],
        token_actions(SpecToken::KeyUp(Key::Command)) == seq![SpecAction::KeyUp(EmulatedKey::Meta)],
{
}

/// Law: the plain part of a report is read from fixed places. The left,
/// right and middle buttons are bits 0x01, 0x02 and 0x04 of byte 0; the
/// mode is the low three bits of a mode byte (0 to 2 select those normal
/// modes, 4 to 6 select shift modes 0 to 2, 3 and 7 select normal mode 0);
/// a motion byte is a two's complement number; a wheel byte scrolls down by
/// one click on 1, up by one on 255, and not at all otherwise.
pub proof fn lemma_report_layout(buffer: Seq<u8>, b: u8)
    requires
        buffer.len() >= 1,
    ensures
        click_of(buffer).left == ((buffer[0] & 0x01u8) != 0u8),
        click_of(buffer).right == ((buffer[0] & 0x02u8) != 0u8),
        click_of(buffer).middle == ((buffer[0] & 0x04u8) != 0u8),
        (b & 7u8) < 3 ==> mode_of(b) == Mode::Normal(b & 7u8),
        4 <= (b & 7u8) < 7 ==> mode_of(b) == Mode::Shift(((b & 7u8) - 4) as u8),
        (b & 7u8) == 3 || (b & 7u8) == 7 ==> mode_of(b) == Mode::Normal(0),
        -128 <= signed_delta(b) <= 127,
        b < 128 ==> signed_delta(b) == b,
        b >= 128 ==> signed_delta(b) == b - 256,
        b == 1 ==> wheel_actions(b) == seq![SpecAction::MouseScrollY(-1i32)],
        b == 255 ==> wheel_actions(b) == seq![SpecAction::MouseScrollY(1i32)],
        b != 1 && b != 255 ==> wheel_actions(b).len() == 0,
{
    assert((b & 7u8) <= 7) by (bit_vector);
}

/// Every report selects a mode within the three of its kind.
pub proof fn lemma_mode_in_range(b: u8)
    ensures
        absolute(mode_of(b)) < 3,
{
}

/// The emulation state of one mouse: its mode, which buttons are down, and
/// the tokens of its profile.
pub struct Mapper {
    pub mode: Mode,
    pub click_state: ClickState,
    pub button_state: ButtonState,
    pub button_configs_token: ButtonConfigsToken,
    pub last_mouses_config_state_id: u32,
}

impl Mapper {
    /// A mapper for a mouse with the given profile, in normal mode 0 with no
    /// button down; `mouses_config_state_id` is the profiles' version.
    pub fn new(button_configs: ButtonConfigs, mouses_config_state_id: u32) -> (res: Self)
        requires
            profile_tokenizable(button_configs@),
        ensures
            res.mode == Mode::Normal(0),
            res.click_state == (ClickState { left: false, right: false, middle: false }),
            res.button_state@ == Seq::new(BUTTON_COUNT as nat, |i: int| false),
            res.button_configs_token@ == Seq::new(
                BUTTON_COUNT as nat,
                |i: int| config_token_spec(button_configs@[i]),
            ),
            res.last_mouses_config_state_id == mouses_config_state_id,
    {
        Mapper {
            mode: Mode::Normal(0),
            click_state: ClickState { left: false, right: false, middle: false },
            button_state: ButtonState::released(),
            button_configs_token: ButtonConfigsToken::from_config(button_configs),
            last_mouses_config_state_id: mouses_config_state_id,
        }
    }

    /// Whether the profiles' version differs from the one last seen; the
    /// new version is then remembered.
    pub fn config_has_change(&mut self, mouses_config_state_id: u32) -> (res: bool)
        ensures
            res == (old(self).last_mouses_config_state_id != mouses_config_state_id),
            final(self).last_mouses_config_state_id == mouses_config_state_id,
            final(self).mode == old(self).mode,
            final(self).click_state == old(self).click_state,
            final(self).button_state == old(self).button_state,
            final(self).button_configs_token == old(self).button_configs_token,
    {
        if self.last_mouses_config_state_id != mouses_config_state_id {
            self.last_mouses_config_state_id = mouses_config_state_id;
            true
        } else {
            false
        }
    }

    fn update_mode(&mut self, buffer: &[u8])
        requires
            buffer@.len() >= 3,
        ensures
            final(self).mode == mode_of(buffer@[2]),
            absolute(final(self).mode) < 3,
            final(self).click_state == old(self).click_state,
            final(self).button_state == old(self).button_state,
            final(self).button_configs_token == old(self).button_configs_token,
            final(self).last_mouses_config_state_id == old(self).last_mouses_config_state_id,
    {
        let modes = buffer[2] & 0b111;
        self.mode = if modes == 0 || modes == 1 || modes == 2 {
            Mode::Normal(modes)
        } else if modes == 4 || modes == 5 || modes == 6 {
            Mode::Shift(modes - 0b100)
        } else {
            Mode::Normal(0)
        };
    }

    fn get_state_token<'a>(&self, button_config_token: &'a ButtonConfigToken) -> (res: &'a StateToken)
        requires
            absolute(self.mode) < 3,
        ensures
            res@ == state_token_in(button_config_token_view(*button_config_token), self.mode),
    {
        let (shift, mode) = match self.mode {
            Mode::Normal(m) => (0usize, m),
            Mode::Shift(m) => (1usize, m),
        };
        &button_config_token[shift][mode as usize]
    }

    fn basic_emulation(&mut self, buffer: &[u8], out: &mut Vec<Action>)
        requires
            buffer@.len() >= 8,
            absolute(old(self).mode) < 3,
        ensures
            ({
                let free = is_unmapped(
                    state_token_in(old(self).button_configs_token@[0], old(self).mode),
                );
                &&& actions_view(final(out)@) == actions_view(old(out)@) + basic_actions(
                    old(self).click_state,
                    buffer@,
                    free,
                )
                &&& final(self).click_state == next_click_state(
                    old(self).click_state,
                    buffer@,
                    free,
                )
            }),
            final(self).mode == old(self).mode,
            final(self).button_state == old(self).button_state,
            final(self).button_configs_token == old(self).button_configs_token,
            final(self).last_mouses_config_state_id == old(self).last_mouses_config_state_id,
    {
        let ghost start = actions_view(out@);
        let ghost prev = self.click_state;
        let ghost cur = click_of(buffer@);
        let left = (buffer[0] & 1) > 0;
        let right = (buffer[0] & 2) > 0;
        let middle = (buffer[0] & 4) > 0;
        let middle_button_state_token = self.get_state_token(&self.button_configs_token.scroll_button);
        let middle_free = middle_button_state_token.down.len() == 0
            && middle_button_state_token.repeat.len() == 0 && middle_button_state_token.up.len() == 0;

        press_button(self.click_state.left, left, MouseButton::Left, out);
        self.click_state.left = left;
        let ghost after_left = actions_view(out@);
        if middle_free {
            press_button(self.click_state.middle, middle, MouseButton::Middle, out);
            self.click_state.middle = middle;
        }
        let ghost after_middle = actions_view(out@);
        assert(after_middle == after_left + (if middle_free {
            press_actions(prev.middle, cur.middle, MouseButton::Middle)
        } else {
            seq![]
        })) by {
            if !middle_free {
                assert(after_left + seq![] =~= after_left);
            }
        }
        press_button(self.click_state.right, right, MouseButton::Right, out);
        self.click_state.right = right;
        let ghost after_right = actions_view(out@);
        push_action(out, Action::MouseMoveRelative(signed_byte(buffer[3]), signed_byte(buffer[5])));
        let ghost after_move = actions_view(out@);
        assert(after_move =~= after_right + seq![
            SpecAction::MouseMoveRelative(signed_delta(buffer@[3]), signed_delta(buffer@[5])),
        ]);
        push_wheel(buffer[7], out);
        proof {
            lemma_concat5(
                start,
                press_actions(prev.left, cur.left, MouseButton::Left),
                if middle_free {
                    press_actions(prev.middle, cur.middle, MouseButton::Middle)
                } else {
                    seq![]
                },
                press_actions(prev.right, cur.right, MouseButton::Right),
                seq![SpecAction::MouseMoveRelative(signed_delta(buffer@[3]), signed_delta(buffer@[5]))],
                wheel_actions(buffer@[7]),
            );
        }
    }

    fn emulate_button_config(
        &self,
        button_config_token: &ButtonConfigToken,
        previous_button_state: bool,
        current_button_state: bool,
        out: &mut Vec<Action>,
    )
        requires
            absolute(self.mode) < 3,
        ensures
            actions_view(final(out)@) == actions_view(old(out)@) + button_actions(
                state_token_in(button_config_token_view(*button_config_token), self.mode),
                previous_button_state,
                current_button_state,
            ),
    {
        let ghost start = actions_view(out@);
        let state_token = self.get_state_token(button_config_token);
        if current_button_state != previous_button_state {
            if current_button_state {
                emulate_token_vec(&state_token.down, out);
            } else {
                emulate_token_vec(&state_token.up, out);
            }
        }
        let ghost mid = actions_view(out@);
        assert(mid =~= start + (if current_button_state != previous_button_state {
            if current_button_state {
                tokens_actions(state_token@.down)
            } else {
                tokens_actions(state_token@.up)
            }
        } else {
            seq![]
        }));
        if current_button_state {
            emulate_token_vec(&state_token.repeat, out);
        }
        assert(actions_view(out@) =~= mid + (if current_button_state {
            tokens_actions(state_token@.repeat)
        } else {
            seq![]
        }));
    }

    fn mapped_emulation(&mut self, buffer: &[u8], out: &mut Vec<Action>)
        requires
            buffer@.len() >= 3,
            absolute(old(self).mode) < 3,
        ensures
            actions_view(final(out)@) == actions_view(old(out)@) + mapped_actions(
                old(self).button_configs_token@,
                old(self).mode,
                old(self).button_state@,
                decode_buttons(buffer@),
                BUTTON_COUNT as nat,
            ),
            final(self).button_state@ == decode_buttons(buffer@),
            final(self).mode == old(self).mode,
            final(self).click_state == old(self).click_state,
            final(self).button_configs_token == old(self).button_configs_token,
            final(self).last_mouses_config_state_id == old(self).last_mouses_config_state_id,
    {
        let button_state = decode_report_buttons(buffer);
        let order = emulation_order_array();
        let ghost start = actions_view(out@);
        let mut n: usize = 0;
        while n < 15
            invariant
                n <= 15,
                absolute(self.mode) < 3,
                forall|i: int| 0 <= i < 15 ==> order@[i] as int == #[trigger] emulation_order()[i],
                forall|i: int| 0 <= i < 15 ==> 0 <= #[trigger] emulation_order()[i] < 15,
                button_state@ == decode_buttons(buffer@),
                actions_view(out@) == start + mapped_actions(
                    self.button_configs_token@,
                    self.mode,
                    self.button_state@,
                    button_state@,
                    n as nat,
                ),
            decreases 15 - n,
        {
            let k = order[n];
            assert(k as int == emulation_order()[n as int]);
            let ghost before = actions_view(out@);
            self.emulate_button_config(
                self.button_configs_token.get(k),
                self.button_state.get(k),
                button_state.get(k),
                out,
            );
            proof {
                lemma_add_assoc(
                    start,
                    mapped_actions(
                        self.button_configs_token@,
                        self.mode,
                        self.button_state@,
                        button_state@,
                        n as nat,
                    ),
                    button_actions(
                        state_token_in(self.button_configs_token@[k as int], self.mode),
                        self.button_state@[k as int],
                        button_state@[k as int],
                    ),
                );
            }
            n = n + 1;
        }
        self.button_state = button_state;
    }

    /// The input to emulate for one report of the mouse (at least eight
    /// bytes): the mode is read first, then the plain mouse part, then the
    /// programmable buttons; the mapper then remembers which buttons are down.
    pub fn emulate(&mut self, buffer: &[u8]) -> (res: Vec<Action>)
        requires
            buffer@.len() >= 8,
        ensures
            ({
                let mode = mode_of(buffer@[2]);
                let free = is_unmapped(
                    state_token_in(old(self).button_configs_token@[0], mode),
                );
                &&& final(self).mode == mode
                &&& final(self).click_state == next_click_state(
                    old(self).click_state,
                    buffer@,
                    free,
                )
                &&& final(self).button_state@ == decode_buttons(buffer@)
                &&& actions_view(res@) == basic_actions(old(self).click_state, buffer@, free)
                    + mapped_actions(
                    old(self).button_configs_token@,
                    mode,
                    old(self).button_state@,
                    decode_buttons(buffer@),
                    BUTTON_COUNT as nat,
                )
            }),
            final(self).button_configs_token == old(self).button_configs_token,
            final(self).last_mouses_config_state_id == old(self).last_mouses_config_state_id,
    {
        let mut out: Vec<Action> = Vec::new();
        assert(actions_view(out@) =~= seq![]);
        self.update_mode(buffer);
        self.basic_emulation(buffer, &mut out);
        let ghost after_basic = actions_view(out@);
        self.mapped_emulation(buffer, &mut out);
        out
    }
}

} // verus!
