use vstd::prelude::*;
use crate::connection::command::{DeviceConfig, SpecDeviceConfig};
use crate::mmo7::buttons::{ButtonConfig, clone_strings};
use crate::ui::AppEvent;
use crate::ui::text_input::{
    TextInput, TextInputView, deleted, erased_back, inserted, loaded, moved_left, moved_right,
    strip_line_breaks, typed, without_line_breaks,
};

verus! {

/// A mode that the configurator lets the user edit: a normal or a shift
/// mode, and its number among them.
#[derive(Clone, Copy, PartialEq, Eq, Structural, Debug)]
pub struct ModeEntry {
    pub is_shift_mode: bool,
    pub mode: u8,
}

/// The modes of a driver: its normal modes, then its shift modes, each
/// numbered from 0.
pub open spec fn mode_list_spec(mode_count: u8, shift_mode_count: u8) -> Seq<ModeEntry> {
    Seq::new(mode_count as nat, |i: int| ModeEntry { is_shift_mode: false, mode: i as u8 }) + Seq::new(
        shift_mode_count as nat,
        |i: int| ModeEntry { is_shift_mode: true, mode: i as u8 },
    )
}

/// The modes that the configurator offers for a driver.
pub fn mode_list(mode_count: u8, shift_mode_count: u8) -> (res: Vec<ModeEntry>)
    ensures
        res@ == mode_list_spec(mode_count, shift_mode_count),
{
    let mut res: Vec<ModeEntry> = Vec::new();
    let mut i: u8 = 0;
    while i < mode_count
        invariant
            i <= mode_count,
            res@ == Seq::new(i as nat, |k: int| ModeEntry { is_shift_mode: false, mode: k as u8 }),
        decreases mode_count - i,
    {
        res.push(ModeEntry { is_shift_mode: false, mode: i });
        assert(res@ =~= Seq::new(
            (i + 1) as nat,
            |k: int| ModeEntry { is_shift_mode: false, mode: k as u8 },
        ));
        i = i + 1;
    }
    let ghost normal = res@;
    let mut j: u8 = 0;
    while j < shift_mode_count
        invariant
            j <= shift_mode_count,
            res@ == normal + Seq::new(
                j as nat,
                |k: int| ModeEntry { is_shift_mode: true, mode: k as u8 },
            ),
        decreases shift_mode_count - j,
    {
        res.push(ModeEntry { is_shift_mode: true, mode: j });
        assert(res@ =~= normal + Seq::new(
            (j + 1) as nat,
            |k: int| ModeEntry { is_shift_mode: true, mode: k as u8 },
        ));
        j = j + 1;
    }
    res
}

/// The mode before the current one, going round to the last.
pub fn previous_mode(current: usize, count: usize) -> (res: usize)
    requires
        current > 0 || count > 0,
    ensures
        res == if current == 0 {
            count - 1
        } else {
            current - 1
        },
{
    if current == 0 {
        count - 1
    } else {
        current - 1
    }
}

/// The mode after the current one, going round to the first.
pub fn next_mode(current: usize, count: usize) -> (res: usize)
    requires
        count > 0,
        current == count - 1 || current < usize::MAX,
    ensures
        res == if current == count - 1 {
            0
        } else {
            current + 1
        },
{
    if current == count - 1 {
        0
    } else {
        current + 1
    }
}

/// Law: among the modes, going to the next mode and back, or back and
/// then on, returns to the mode one started from, and both stay among the
/// modes.
pub proof fn lemma_mode_cycle(current: int, count: int)
    requires
        0 <= current < count,
    ensures
        ({
            let next = if current == count - 1 {
                0
            } else {
                current + 1
            };
            let previous = if current == 0 {
                count - 1
            } else {
                current - 1
            };
            &&& 0 <= next < count
            &&& 0 <= previous < count
            &&& (if next == 0 {
                count - 1
            } else {
                next - 1
            }) == current
            &&& (if previous == count - 1 {
                0
            } else {
                previous + 1
            }) == current
        }),
{
}

/// Whether a typed character goes into a macro: line breaks and the
/// control characters of the copy, cut, paste, backspace, escape and
/// delete keys do not.
pub open spec fn accepted_char(c: char) -> bool {
    c != '\n' && c != '\r' && c != '\u{3}' && c != '\u{8}' && c != '\u{16}' && c != '\u{18}' && c
        != '\u{1b}' && c != '\u{7f}'
}

/// Whether a typed character goes into a macro (see `accepted_char`).
pub fn accepts_char(c: char) -> (res: bool)
    ensures
        res == accepted_char(c),
{
    c != '\n' && c != '\r' && c != '\u{3}' && c != '\u{8}' && c != '\u{16}' && c != '\u{18}' && c
        != '\u{1b}' && c != '\u{7f}'
}

/// Which of a button's two lists a mode reads: 1 for shift modes.
pub open spec fn list_index(entry: ModeEntry) -> int {
    if entry.is_shift_mode {
        1
    } else {
        0
    }
}

/// The profile has a macro for a button in a mode.
pub open spec fn has_parameter(config: SpecDeviceConfig, index: int, entry: ModeEntry) -> bool {
    &&& 0 <= index < config.config.len()
    &&& config.config[index].len() == 2
    &&& entry.mode < config.config[index][list_index(entry)].len()
}

/// The macro of a button in a mode, shown in the button's text field.
pub fn parameter_text(config: &DeviceConfig, index: usize, entry: ModeEntry) -> (res: String)
    requires
        has_parameter(config@, index as int, entry),
    ensures
        res@ == config@.config[index as int][list_index(entry)][entry.mode as int],
{
    let s: usize = if entry.is_shift_mode {
        1
    } else {
        0
    };
    config.config[index][s][entry.mode as usize].clone()
}

/// Writes the text of a button's field into the profile, as the macro of
/// the button in the mode shown.
pub fn set_parameter_text(config: &mut DeviceConfig, index: usize, entry: ModeEntry, text: String)
    requires
        has_parameter(old(config)@, index as int, entry),
    ensures
        final(config)@ == (SpecDeviceConfig {
            config: old(config)@.config.update(
                index as int,
                old(config)@.config[index as int].update(
                    list_index(entry),
                    old(config)@.config[index as int][list_index(entry)].update(
                        entry.mode as int,
                        text@,
                    ),
                ),
            ),
            ..old(config)@
        }),
{
    let ghost old_config = config@;
    let s: usize = if entry.is_shift_mode {
        1
    } else {
        0
    };
    let mut list = clone_strings(&config.config[index][s]);
    list.set(entry.mode as usize, text);
    let other = clone_strings(&config.config[index][1 - s]);
    let new_button: ButtonConfig = if s == 0 {
        [list, other]
    } else {
        [other, list]
    };
    config.config.set(index, new_button);
    proof {
        let b = old_config.config[index as int];
        let updated = b.update(
            list_index(entry),
            b[list_index(entry)].update(entry.mode as int, text@),
        );
        assert(list.deep_view() =~= b[list_index(entry)].update(entry.mode as int, text@));
        assert(new_button.deep_view() =~= updated);
        assert(config@.config =~= old_config.config.update(index as int, updated));
    }
}

/// The profile with the macro of a button in a mode replaced.
pub open spec fn with_parameter(
    config: SpecDeviceConfig,
    index: int,
    entry: ModeEntry,
    text: Seq<char>,
) -> SpecDeviceConfig {
    SpecDeviceConfig {
        config: config.config.update(
            index,
            config.config[index].update(
                list_index(entry),
                config.config[index][list_index(entry)].update(entry.mode as int, text),
            ),
        ),
        ..config
    }
}

/// Law: the macro written for a button in a mode is the one read back for
/// it, and the other macros of the profile are unchanged.
pub proof fn lemma_parameter_read_after_write(
    config: SpecDeviceConfig,
    index: int,
    entry: ModeEntry,
    text: Seq<char>,
    other_index: int,
    other_entry: ModeEntry,
)
    requires
        has_parameter(config, index, entry),
        has_parameter(config, other_index, other_entry),
        other_index != index || other_entry != entry,
    ensures
        has_parameter(with_parameter(config, index, entry, text), index, entry),
        with_parameter(config, index, entry, text).config[index][list_index(entry)][entry.mode as int]
            == text,
        with_parameter(config, index, entry, text).config[other_index][list_index(
            other_entry,
        )][other_entry.mode as int] == config.config[other_index][list_index(
            other_entry,
        )][other_entry.mode as int],
{
}

/// A key pressed while a macro field has the focus.
pub enum EditKey {
    Left,
    Right,
    Delete,
    Back,
    /// Control with C or X.
    Copy,
    /// Control with V, with the text that the clipboard held.
    Paste(String),
    /// Any other key, or control with V when the clipboard could not be read.
    Other,
}

/// What happened in the configurator.
pub enum ConfiguratorEvent {
    MousePressed,
    /// A pointer release, over the element with this tag, if any.
    MouseReleased(Option<(AppEvent, u16)>),
    Focus(bool),
    KeyPressed(EditKey),
    Char(char),
    Other,
}

/// What the configurator asks of the window after an event.
pub struct ConfiguratorEffects {
    pub redraw: bool,
    /// A text to put on the clipboard.
    pub clipboard: Option<String>,
    /// The edited profile is to be sent to the driver of the selected mouse.
    pub apply_config: bool,
}

/// The configurator's decision state: one text field per button, the field
/// with the focus, the mode shown, and the modes of the driver.
pub struct Configurator {
    pub parameters: Vec<TextInput>,
    pub focused: Option<usize>,
    pub current_mode: usize,
    pub modes: Vec<ModeEntry>,
}

/// The value of a configurator.
pub struct ConfiguratorView {
    pub params: Seq<TextInputView>,
    pub focused: Option<usize>,
    pub current_mode: usize,
    pub modes: Seq<ModeEntry>,
}

impl Configurator {
    pub open spec fn view(&self) -> ConfiguratorView {
        ConfiguratorView {
            params: Seq::new(self.parameters@.len(), |i: int| self.parameters@[i].view()),
            focused: self.focused,
            current_mode: self.current_mode,
            modes: self.modes@,
        }
    }

    /// Every field is well formed, the focused field exists, and the mode
    /// shown is one of the modes (or 0 before the modes are known).
    pub open spec fn wf(&self) -> bool {
        &&& forall|i: int| 0 <= i < self.parameters@.len() ==> #[trigger] self.parameters@[i].wf()
        &&& self.focused matches Some(f) ==> f < self.parameters@.len()
        &&& self.current_mode < self.modes@.len() || (self.modes@.len() == 0
            && self.current_mode == 0)
    }
}

/// A configurator with no field and no mode, before the driver's modes and
/// the profile are known.
pub open spec fn empty_configurator() -> ConfiguratorView {
    ConfiguratorView { params: Seq::empty(), focused: None, current_mode: 0, modes: Seq::empty() }
}

/// The field's edit on a key or a character, and whether the text changed.
pub open spec fn edited(v: TextInputView, e: ConfiguratorEvent) -> (TextInputView, bool) {
    match e {
        ConfiguratorEvent::KeyPressed(EditKey::Left) => (moved_left(v), false),
        ConfiguratorEvent::KeyPressed(EditKey::Right) => (moved_right(v), false),
        ConfiguratorEvent::KeyPressed(EditKey::Delete) => (deleted(v), true),
        ConfiguratorEvent::KeyPressed(EditKey::Back) => (erased_back(v), true),
        ConfiguratorEvent::KeyPressed(EditKey::Paste(t)) => (
            inserted(v, strip_line_breaks(t@)),
            true,
        ),
        ConfiguratorEvent::Char(c) => if accepted_char(c) {
            (typed(v, c), true)
        } else {
            (v, false)
        },
        _ => (v, false),
    }
}

/// Law: what each key does to the focused field, on its text and cursor.
/// Delete removes the character after the cursor (none at the end) and
/// leaves the cursor where it is; Back removes the character before the
/// cursor (none at the start) and moves the cursor back over it; Left and
/// Right move the cursor by one within the text and keep the text; an
/// accepted character goes in at the cursor, which moves past it; a paste
/// puts the clipboard's text, without line breaks, at the cursor, which
/// moves past it. Every edit keeps the focus, and those that can change
/// the text say so.
pub proof fn lemma_edit_keys(v: TextInputView, c: char, t: String)
    requires
        v.cursor <= v.text.len(),
    ensures
        ({
            let (d, changed) = edited(v, ConfiguratorEvent::KeyPressed(EditKey::Delete));
            &&& changed
            &&& d.focused == v.focused
            &&& d.cursor == v.cursor
            &&& v.cursor < v.text.len() ==> d.text == v.text.subrange(0, v.cursor as int)
                + v.text.subrange(v.cursor + 1int, v.text.len() as int)
            &&& v.cursor == v.text.len() ==> d.text == v.text
        }),
        ({
            let (b, changed) = edited(v, ConfiguratorEvent::KeyPressed(EditKey::Back));
            &&& changed
            &&& b.focused == v.focused
            &&& v.cursor > 0 ==> b.cursor == v.cursor - 1 && b.text == v.text.subrange(
                0,
                v.cursor - 1,
            ) + v.text.subrange(v.cursor as int, v.text.len() as int)
            &&& v.cursor == 0 ==> b.cursor == 0 && b.text == v.text
        }),
        ({
            let (l, changed) = edited(v, ConfiguratorEvent::KeyPressed(EditKey::Left));
            &&& !changed
            &&& l.text == v.text && l.focused == v.focused
            &&& l.cursor == if v.cursor > 0 {
                v.cursor - 1
            } else {
                0
            }
        }),
        ({
            let (r, changed) = edited(v, ConfiguratorEvent::KeyPressed(EditKey::Right));
            &&& !changed
            &&& r.text == v.text && r.focused == v.focused
            &&& r.cursor == if v.cursor < v.text.len() {
                v.cursor + 1
            } else {
                v.cursor
            }
        }),
        ({
            let (x, changed) = edited(v, ConfiguratorEvent::Char(c));
            &&& changed == accepted_char(c)
            &&& x.focused == v.focused
            &&& accepted_char(c) ==> x.cursor == v.cursor + 1 && x.text == v.text.subrange(
                0,
                v.cursor as int,
            ) + seq![c] + v.text.subrange(v.cursor as int, v.text.len() as int)
            &&& !accepted_char(c) ==> x == v
        }),
        ({
            let (p, changed) = edited(v, ConfiguratorEvent::KeyPressed(EditKey::Paste(t)));
            let pasted = strip_line_breaks(t@);
            &&& changed
            &&& p.focused == v.focused
            &&& p.cursor == v.cursor + pasted.len()
            &&& p.text == v.text.subrange(0, v.cursor as int) + pasted + v.text.subrange(
                v.cursor as int,
                v.text.len() as int,
            )
        }),
{
    let k = v.cursor as int;
    if k < v.text.len() {
        assert(v.text.remove(k) =~= v.text.subrange(0, k) + v.text.subrange(k + 1, v.text.len() as int));
    }
    if k > 0 {
        assert(v.text.remove(k - 1) =~= v.text.subrange(0, k - 1) + v.text.subrange(
            k,
            v.text.len() as int,
        ));
    }
    assert(v.text.insert(k, c) =~= v.text.subrange(0, k) + seq![c] + v.text.subrange(
        k,
        v.text.len() as int,
    ));
}

/// Whether an event reaches the focused field (and then asks for a redraw).
pub open spec fn edit_redraws(e: ConfiguratorEvent) -> bool {
    match e {
        ConfiguratorEvent::KeyPressed(EditKey::Left) => true,
        ConfiguratorEvent::KeyPressed(EditKey::Right) => true,
        ConfiguratorEvent::KeyPressed(EditKey::Delete) => true,
        ConfiguratorEvent::KeyPressed(EditKey::Back) => true,
        ConfiguratorEvent::KeyPressed(EditKey::Paste(_)) => true,
        ConfiguratorEvent::Char(c) => accepted_char(c),
        _ => false,
    }
}

/// The event takes the focus away from the fields.
pub open spec fn unfocuses(e: ConfiguratorEvent) -> bool {
    match e {
        ConfiguratorEvent::MousePressed => true,
        ConfiguratorEvent::Focus(f) => !f,
        _ => false,
    }
}

/// The fields after every field lost the focus.
pub open spec fn all_unfocused(params: Seq<TextInputView>) -> Seq<TextInputView> {
    Seq::new(params.len(), |i: int| TextInputView { focused: false, ..params[i] })
}

/// The fields reloaded from the profile for a mode.
pub open spec fn reloaded(count: nat, config: SpecDeviceConfig, entry: ModeEntry) -> Seq<
    TextInputView,
> {
    Seq::new(count, |i: int| loaded(config.config[i][list_index(entry)][entry.mode as int]))
}

/// Every field has a macro in the profile for the mode.
pub open spec fn reloadable(count: nat, config: SpecDeviceConfig, entry: ModeEntry) -> bool {
    forall|i: int| 0 <= i < count ==> #[trigger] has_parameter(config, i, entry)
}

/// The configurator can handle the event without failing: an edit that
/// changes the text of the focused field can be written into the selected
/// profile, and the text stays within the machine's limits; a change of
/// mode happens among known modes and finds a macro for every field; a
/// click on a field names an existing field.
pub open spec fn event_handled(
    v: ConfiguratorView,
    e: ConfiguratorEvent,
    selected: Option<SpecDeviceConfig>,
) -> bool {
    match e {
        ConfiguratorEvent::MouseReleased(Some((event, tag))) => match event {
            AppEvent::ModeSelectorPrevious | AppEvent::ModeSelectorNext => {
                let next = if event == AppEvent::ModeSelectorPrevious {
                    if v.current_mode == 0 {
                        v.modes.len() - 1
                    } else {
                        v.current_mode - 1
                    }
                } else {
                    if v.current_mode == v.modes.len() - 1 {
                        0
                    } else {
                        v.current_mode + 1
                    }
                };
                &&& v.modes.len() > 0
                &&& selected matches Some(c) ==> reloadable(v.params.len(), c, v.modes[next])
            },
            AppEvent::Parameter => tag < v.params.len(),
            _ => true,
        },
        _ => match v.focused {
            Some(f) => {
                let (after, changed) = edited(v.params[f as int], e);
                &&& after.text.len() <= usize::MAX
                &&& (changed && selected is Some) ==> {
                    &&& v.current_mode < v.modes.len()
                    &&& has_parameter(selected.unwrap(), f as int, v.modes[v.current_mode as int])
                }
            },
            None => true,
        },
    }
}

/// What the configurator does on an event. While a field has the focus, a
/// press elsewhere or a loss of the window's focus takes the focus from
/// every field; the arrow keys move the cursor; delete, backspace, a paste
/// (without line breaks) and an accepted character edit the text, which is
/// written into the selected profile as the macro of the field's button in
/// the mode shown; control with C or X copies the text. A release over the
/// mode selector shows the previous or next mode, going round, and reloads
/// every field from the selected profile; over the apply button it sends
/// the profile when one is selected; over a field it gives that field the
/// focus.
pub open spec fn event_result(
    v: ConfiguratorView,
    e: ConfiguratorEvent,
    selected: Option<SpecDeviceConfig>,
    after: ConfiguratorView,
    selected_after: Option<SpecDeviceConfig>,
    effects: (bool, Option<Seq<char>>, bool),
) -> bool {
    match e {
        ConfiguratorEvent::MouseReleased(hit) => {
            &&& selected_after == selected
            &&& effects.1 is None
            &&& after.modes == v.modes
            &&& match hit {
                Some((event, tag)) => if event == AppEvent::ModeSelectorPrevious || event
                    == AppEvent::ModeSelectorNext {
                    let next = if event == AppEvent::ModeSelectorPrevious {
                        if v.current_mode == 0 {
                            (v.modes.len() - 1) as usize
                        } else {
                            (v.current_mode - 1) as usize
                        }
                    } else {
                        if v.current_mode == v.modes.len() - 1 {
                            0usize
                        } else {
                            (v.current_mode + 1) as usize
                        }
                    };
                    &&& after.current_mode == next
                    &&& after.focused == v.focused
                    &&& after.params == match selected {
                        Some(c) => reloaded(v.params.len(), c, v.modes[next as int]),
                        None => v.params,
                    }
                    &&& effects.0 == selected is Some
                    &&& !effects.2
                } else if event == AppEvent::ApplyConfig {
                    &&& after == v
                    &&& !effects.0
                    &&& effects.2 == selected is Some
                } else if event == AppEvent::Parameter {
                    &&& after == ConfiguratorView {
                        params: v.params.update(
                            tag as int,
                            TextInputView { focused: true, ..v.params[tag as int] },
                        ),
                        focused: Some(tag as usize),
                        ..v
                    }
                    &&& effects.0
                    &&& !effects.2
                } else {
                    &&& after == v
                    &&& !effects.0
                    &&& !effects.2
                },
                None => {
                    &&& after == v
                    &&& !effects.0
                    &&& !effects.2
                },
            }
        },
        _ => {
            &&& !effects.2
            &&& match v.focused {
                None => {
                    &&& after == v
                    &&& selected_after == selected
                    &&& !effects.0
                    &&& effects.1 is None
                },
                Some(f) => if unfocuses(e) {
                    &&& after == ConfiguratorView {
                        params: all_unfocused(v.params),
                        focused: None,
                        ..v
                    }
                    &&& selected_after == selected
                    &&& effects.0
                    &&& effects.1 is None
                } else if e matches ConfiguratorEvent::KeyPressed(EditKey::Copy) {
                    &&& after == v
                    &&& selected_after == selected
                    &&& !effects.0
                    &&& effects.1 == Some(v.params[f as int].text)
                } else {
                    let (field, changed) = edited(v.params[f as int], e);
                    &&& after == ConfiguratorView {
                        params: v.params.update(f as int, field),
                        ..v
                    }
                    &&& selected_after == if changed {
                        match selected {
                            Some(c) => Some(
                                with_parameter(
                                    c,
                                    f as int,
                                    v.modes[v.current_mode as int],
                                    field.text,
                                ),
                            ),
                            None => None,
                        }
                    } else {
                        selected
                    }
                    &&& effects.0 == edit_redraws(e)
                    &&& effects.1 is None
                },
            }
        },
    }
}

/// The value of the selected profile, if any.
pub open spec fn selected_view(s: Option<DeviceConfig>) -> Option<SpecDeviceConfig> {
    match s {
        Some(c) => Some(c@),
        None => None,
    }
}

/// The value of the effects: redraw, clipboard text, apply.
pub open spec fn effects_view(e: ConfiguratorEffects) -> (bool, Option<Seq<char>>, bool) {
    (
        e.redraw,
        match e.clipboard {
            Some(t) => Some(t@),
            None => None,
        },
        e.apply_config,
    )
}

fn effects(redraw: bool, apply_config: bool) -> (res: ConfiguratorEffects)
    ensures
        effects_view(res) == (redraw, Option::<Seq<char>>::None, apply_config),
{
    ConfiguratorEffects { redraw, clipboard: None, apply_config }
}

impl Configurator {
    /// A configurator before the driver's modes and the profile are known.
    pub fn new() -> (res: Self)
        ensures
            res.wf(),
            res.view() == empty_configurator(),
    {
        let res = Configurator {
            parameters: Vec::new(),
            focused: None,
            current_mode: 0,
            modes: Vec::new(),
        };
        assert(res.view().params =~= Seq::<TextInputView>::empty());
        res
    }

    /// Replaces the field at `index`.
    fn replace_field(&mut self, index: usize, field: TextInput)
        requires
            old(self).wf(),
            index < old(self).parameters@.len(),
            field.wf(),
        ensures
            final(self).wf(),
            final(self).parameters@ == old(self).parameters@.update(index as int, field),
            final(self).view() == (ConfiguratorView {
                params: old(self).view().params.update(index as int, field.view()),
                ..old(self).view()
            }),
    {
        let ghost before = self.view();
        self.parameters.set(index, field);
        assert(self.view().params =~= before.params.update(index as int, field.view()));
    }

    /// Takes the field at `index` out, leaving an empty one in its place.
    fn take_field(&mut self, index: usize) -> (res: TextInput)
        requires
            old(self).wf(),
            index < old(self).parameters@.len(),
        ensures
            res.wf(),
            res.view() == old(self).view().params[index as int],
            final(self).parameters@.len() == old(self).parameters@.len(),
            final(self).wf(),
            forall|i: int|
                0 <= i < final(self).parameters@.len() && i != index
                    ==> #[trigger] final(self).parameters@[i] == old(self).parameters@[i],
            final(self).focused == old(self).focused,
            final(self).current_mode == old(self).current_mode,
            final(self).modes == old(self).modes,
    {
        let blank = TextInput::new(String::new());
        let res = self.parameters.remove(index);
        self.parameters.insert(index, blank);
        assert(self.parameters@[index as int].wf());
        res
    }

    /// Every field loses the focus.
    fn unfocus_all(&mut self)
        requires
            old(self).wf(),
        ensures
            final(self).wf(),
            final(self).view() == (ConfiguratorView {
                params: all_unfocused(old(self).view().params),
                ..old(self).view()
            }),
    {
        let ghost before = self.view();
        let mut i: usize = 0;
        while i < self.parameters.len()
            invariant
                self.wf(),
                i <= self.parameters@.len(),
                self.parameters@.len() == before.params.len(),
                self.focused == before.focused,
                self.current_mode == before.current_mode,
                self.modes@ == before.modes,
                forall|k: int|
                    0 <= k < i ==> #[trigger] self.parameters@[k].view() == (TextInputView {
                        focused: false,
                        ..before.params[k]
                    }),
                forall|k: int|
                    i <= k < self.parameters@.len() ==> #[trigger] self.parameters@[k].view()
                        == before.params[k],
            decreases self.parameters@.len() - i,
        {
            let mut field = self.take_field(i);
            field.set_focus(false);
            self.replace_field(i, field);
            i = i + 1;
        }
        assert(self.view().params =~= all_unfocused(before.params));
    }

    /// Reloads every field from the selected profile, for the mode shown;
    /// returns whether there was a profile.
    fn reload(&mut self, selected: &Option<DeviceConfig>) -> (res: bool)
        requires
            old(self).wf(),
            old(self).current_mode < old(self).modes@.len(),
            selected matches Some(c) ==> reloadable(
                old(self).parameters@.len() as nat,
                c@,
                old(self).modes@[old(self).current_mode as int],
            ),
        ensures
            final(self).wf(),
            res == selected is Some,
            final(self).view() == (ConfiguratorView {
                params: match selected {
                    Some(c) => reloaded(
                        old(self).parameters@.len() as nat,
                        c@,
                        old(self).modes@[old(self).current_mode as int],
                    ),
                    None => old(self).view().params,
                },
                ..old(self).view()
            }),
    {
        match selected {
            Some(c) => {
                let ghost before = self.view();
                let entry = self.modes[self.current_mode];
                let mut i: usize = 0;
                while i < self.parameters.len()
                    invariant
                        self.wf(),
                        i <= self.parameters@.len(),
                        self.parameters@.len() == before.params.len(),
                        self.focused == before.focused,
                        self.current_mode == before.current_mode,
                        self.modes@ == before.modes,
                        entry == before.modes[before.current_mode as int],
                        reloadable(before.params.len(), c@, entry),
                        forall|k: int|
                            0 <= k < i ==> #[trigger] self.parameters@[k].view() == loaded(
                                c@.config[k][list_index(entry)][entry.mode as int],
                            ),
                        forall|k: int|
                            i <= k < self.parameters@.len() ==> #[trigger] self.parameters@[k].view()
                                == before.params[k],
                    decreases self.parameters@.len() - i,
                {
                    assert(has_parameter(c@, i as int, entry));
                    let field = TextInput::new(parameter_text(c, i, entry));
                    self.replace_field(i, field);
                    i = i + 1;
                }
                assert(self.view().params =~= reloaded(before.params.len(), c@, entry));
                true
            },
            None => false,
        }
    }

    /// Writes the focused field's text into the selected profile.
    fn write_selected(&self, f: usize, selected: &mut Option<DeviceConfig>)
        requires
            self.wf(),
            f < self.parameters@.len(),
            (*old(selected)) is Some ==> self.current_mode < self.modes@.len() && has_parameter(
                (*old(selected)).unwrap()@,
                f as int,
                self.modes@[self.current_mode as int],
            ),
        ensures
            selected_view(*final(selected)) == match *old(selected) {
                Some(c) => Some(
                    with_parameter(
                        c@,
                        f as int,
                        self.modes@[self.current_mode as int],
                        self.parameters@[f as int].view().text,
                    ),
                ),
                None => None,
            },
    {
        match selected {
            Some(c) => {
                let entry = self.modes[self.current_mode];
                let text = self.parameters[f].text();
                set_parameter_text(c, f, entry, text);
            },
            None => {},
        }
    }

    fn handle_release(
        &mut self,
        hit: Option<(AppEvent, u16)>,
        selected: &Option<DeviceConfig>,
    ) -> (res: ConfiguratorEffects)
        requires
            old(self).wf(),
            event_handled(
                old(self).view(),
                ConfiguratorEvent::MouseReleased(hit),
                selected_view(*selected),
            ),
        ensures
            final(self).wf(),
            event_result(
                old(self).view(),
                ConfiguratorEvent::MouseReleased(hit),
                selected_view(*selected),
                final(self).view(),
                selected_view(*selected),
                effects_view(res),
            ),
    {
        match hit {
            Some((AppEvent::ModeSelectorPrevious, _)) => {
                self.current_mode = previous_mode(self.current_mode, self.modes.len());
                let redraw = self.reload(selected);
                effects(redraw, false)
            },
            Some((AppEvent::ModeSelectorNext, _)) => {
                self.current_mode = next_mode(self.current_mode, self.modes.len());
                let redraw = self.reload(selected);
                effects(redraw, false)
            },
            Some((AppEvent::ApplyConfig, _)) => effects(false, selected.is_some()),
            Some((AppEvent::Parameter, tag)) => {
                let ghost v = self.view();
                let i = tag as usize;
                let mut field = self.take_field(i);
                field.set_focus(true);
                self.replace_field(i, field);
                self.focused = Some(i);
                assert(self.view().params =~= v.params.update(
                    i as int,
                    TextInputView { focused: true, ..v.params[i as int] },
                ));
                effects(true, false)
            },
            _ => effects(false, false),
        }
    }

    fn handle_focused(
        &mut self,
        event: ConfiguratorEvent,
        selected: &mut Option<DeviceConfig>,
    ) -> (res: ConfiguratorEffects)
        requires
            old(self).wf(),
            !(event is MouseReleased),
            event_handled(old(self).view(), event, selected_view(*old(selected))),
        ensures
            final(self).wf(),
            event_result(
                old(self).view(),
                event,
                selected_view(*old(selected)),
                final(self).view(),
                selected_view(*final(selected)),
                effects_view(res),
            ),
    {
        let f = match self.focused {
            Some(f) => f,
            None => {
                return effects(false, false);
            },
        };
        let ghost v = self.view();
        match event {
            ConfiguratorEvent::MousePressed => {
                self.unfocus_all();
                self.focused = None;
                effects(true, false)
            },
            ConfiguratorEvent::Focus(false) => {
                self.unfocus_all();
                self.focused = None;
                effects(true, false)
            },
            ConfiguratorEvent::KeyPressed(EditKey::Copy) => {
                let text = self.parameters[f].text();
                ConfiguratorEffects { redraw: false, clipboard: Some(text), apply_config: false }
            },
            ConfiguratorEvent::KeyPressed(EditKey::Left) => {
                let mut field = self.take_field(f);
                field.cursor_left();
                self.replace_field(f, field);
                assert(self.view().params =~= v.params.update(f as int, field.view()));
                effects(true, false)
            },
            ConfiguratorEvent::KeyPressed(EditKey::Right) => {
                let mut field = self.take_field(f);
                field.cursor_right();
                self.replace_field(f, field);
                assert(self.view().params =~= v.params.update(f as int, field.view()));
                effects(true, false)
            },
            ConfiguratorEvent::KeyPressed(EditKey::Delete) => {
                let mut field = self.take_field(f);
                field.delete_char();
                self.replace_field(f, field);
                assert(self.view().params =~= v.params.update(f as int, field.view()));
                self.write_selected(f, selected);
                effects(true, false)
            },
            ConfiguratorEvent::KeyPressed(EditKey::Back) => {
                let mut field = self.take_field(f);
                field.back_char();
                self.replace_field(f, field);
                assert(self.view().params =~= v.params.update(f as int, field.view()));
                self.write_selected(f, selected);
                effects(true, false)
            },
            ConfiguratorEvent::KeyPressed(EditKey::Paste(text)) => {
                let clean = without_line_breaks(&text);
                let mut field = self.take_field(f);
                proof {
                    field.lemma_cursor_within();
                }
                field.add_str(&clean);
                self.replace_field(f, field);
                assert(self.view().params =~= v.params.update(f as int, field.view()));
                self.write_selected(f, selected);
                effects(true, false)
            },
            ConfiguratorEvent::Char(c) => {
                if accepts_char(c) {
                    let mut field = self.take_field(f);
                    proof {
                        field.lemma_cursor_within();
                    }
                    field.add_char(c);
                    self.replace_field(f, field);
                assert(self.view().params =~= v.params.update(f as int, field.view()));
                    self.write_selected(f, selected);
                    effects(true, false)
                } else {
                    assert(v.params =~= v.params.update(f as int, v.params[f as int]));
                    effects(false, false)
                }
            },
            _ => {
                assert(v.params =~= v.params.update(f as int, v.params[f as int]));
                effects(false, false)
            },
        }
    }

    /// Once the driver and the profile of the selected mouse are known,
    /// gives the configurator the driver's modes and one field per button,
    /// loaded from the profile for the first mode; does nothing when the
    /// modes are already known. Returns whether it loaded them (the window
    /// then redraws).
    pub fn load(
        &mut self,
        mode_count: u8,
        shift_mode_count: u8,
        button_count: usize,
        config: &DeviceConfig,
    ) -> (res: bool)
        requires
            old(self).wf(),
            old(self).modes@.len() == 0 && button_count > 0 ==> {
                let modes = mode_list_spec(mode_count, shift_mode_count);
                &&& modes.len() > 0
                &&& reloadable(button_count as nat, config@, modes[0])
            },
        ensures
            final(self).wf(),
            res == (old(self).modes@.len() == 0),
            res ==> final(self).view() == (ConfiguratorView {
                params: old(self).view().params + reloaded(
                    button_count as nat,
                    config@,
                    mode_list_spec(mode_count, shift_mode_count)[0],
                ),
                modes: mode_list_spec(mode_count, shift_mode_count),
                ..old(self).view()
            }),
            !res ==> final(self).view() == old(self).view(),
    {
        if self.modes.len() > 0 {
            return false;
        }
        let ghost v = self.view();
        self.modes = mode_list(mode_count, shift_mode_count);
        if button_count == 0 {
            assert(reloaded(0, config@, self.modes@[0]) =~= Seq::<TextInputView>::empty());
            assert(self.view().params =~= v.params + reloaded(0, config@, self.modes@[0]));
            return true;
        }
        let entry = self.modes[self.current_mode];
        let start = self.parameters.len();
        let mut i: usize = 0;
        while i < button_count
            invariant
                self.wf(),
                i <= button_count,
                self.current_mode == 0,
                self.focused == v.focused,
                self.modes@ == mode_list_spec(mode_count, shift_mode_count),
                entry == self.modes@[0],
                start == v.params.len(),
                reloadable(button_count as nat, config@, entry),
                self.view().params == v.params + reloaded(i as nat, config@, entry),
            decreases button_count - i,
        {
            assert(has_parameter(config@, i as int, entry));
            let field = TextInput::new(parameter_text(config, i, entry));
            let ghost before = self.view().params;
            self.parameters.push(field);
            assert(self.view().params =~= before.push(field.view()));
            assert(reloaded((i + 1) as nat, config@, entry) =~= reloaded(i as nat, config@, entry).push(
                field.view(),
            ));
            assert(self.view().params =~= v.params + reloaded((i + 1) as nat, config@, entry));
            i = i + 1;
        }
        true
    }

    /// Handles an event (see `event_result`); the event must be one the
    /// configurator can handle (`event_handled`).
    pub fn calculate_event(
        &mut self,
        event: ConfiguratorEvent,
        selected: &mut Option<DeviceConfig>,
    ) -> (res: ConfiguratorEffects)
        requires
            old(self).wf(),
            event_handled(old(self).view(), event, selected_view(*old(selected))),
        ensures
            final(self).wf(),
            event_result(
                old(self).view(),
                event,
                selected_view(*old(selected)),
                final(self).view(),
                selected_view(*final(selected)),
                effects_view(res),
            ),
    {
        match event {
            ConfiguratorEvent::MouseReleased(hit) => self.handle_release(hit, selected),
            _ => self.handle_focused(event, selected),
        }
    }
}

} // verus!
