use vstd::prelude::*;

verus! {

/// The macros of one button: `[normal modes, shift modes]`, each a list
/// with one macro text per mode.
pub type ButtonConfig = [Vec<String>; 2];

/// The value of a button's macros: two lists of texts.
pub type SpecButtonConfig = Seq<Seq<Seq<char>>>;

/// The number of programmable buttons of the mouse.
pub const BUTTON_COUNT: usize = 15;

/// The macros of every programmable button of the mouse.
pub struct ButtonConfigs {
    pub scroll_button: ButtonConfig,
    pub left_actionlock: ButtonConfig,
    pub right_actionlock: ButtonConfig,
    pub forwards_button: ButtonConfig,
    pub back_button: ButtonConfig,
    pub thumb_anticlockwise: ButtonConfig,
    pub thumb_clockwise: ButtonConfig,
    pub hat_top: ButtonConfig,
    pub hat_left: ButtonConfig,
    pub hat_right: ButtonConfig,
    pub hat_bottom: ButtonConfig,
    pub button_1: ButtonConfig,
    pub precision_aim: ButtonConfig,
    pub button_2: ButtonConfig,
    pub button_3: ButtonConfig,
}

impl View for ButtonConfigs {
    type V = Seq<SpecButtonConfig>;

    /// The buttons' macros in the profile's order: scroll button, left and
    /// right action lock, forwards, back, thumb anticlockwise and clockwise,
    /// hat top, left, right and bottom, button 1, precision aim, button 2,
    /// button 3.
    open spec fn view(&self) -> Seq<SpecButtonConfig> {
        seq![
            self.scroll_button.deep_view(),
            self.left_actionlock.deep_view(),
            self.right_actionlock.deep_view(),
            self.forwards_button.deep_view(),
            self.back_button.deep_view(),
            self.thumb_anticlockwise.deep_view(),
            self.thumb_clockwise.deep_view(),
            self.hat_top.deep_view(),
            self.hat_left.deep_view(),
            self.hat_right.deep_view(),
            self.hat_bottom.deep_view(),
            self.button_1.deep_view(),
            self.precision_aim.deep_view(),
            self.button_2.deep_view(),
            self.button_3.deep_view(),
        ]
    }
}

/// A copy of a list of texts.
pub fn clone_strings(v: &Vec<String>) -> (res: Vec<String>)
    ensures
        res.deep_view() == v.deep_view(),
{
    let mut res: Vec<String> = Vec::new();
    let mut i: usize = 0;
    while i < v.len()
        invariant
            i <= v.len(),
            res@.len() == i,
            forall|k: int| 0 <= k < i ==> res@[k]@ == v@[k]@,
        decreases v.len() - i,
    {
        res.push(v[i].clone());
        i = i + 1;
    }
    assert(res.deep_view() =~= v.deep_view());
    res
}

/// A copy of a button's macros.
pub fn clone_button_config(c: &ButtonConfig) -> (res: ButtonConfig)
    ensures
        res.deep_view() == c.deep_view(),
{
    let res = [clone_strings(&c[0]), clone_strings(&c[1])];
    assert(res.deep_view() =~= c.deep_view());
    res
}

/// A button without macros.
pub fn empty_button_config() -> (res: ButtonConfig)
    ensures
        res.deep_view() == seq![Seq::<Seq<char>>::empty(), Seq::<Seq<char>>::empty()],
{
    let res: ButtonConfig = [Vec::new(), Vec::new()];
    assert(res[0].deep_view() =~= Seq::<Seq<char>>::empty());
    assert(res[1].deep_view() =~= Seq::<Seq<char>>::empty());
    assert(res.deep_view() =~= seq![Seq::<Seq<char>>::empty(), Seq::<Seq<char>>::empty()]);
    res
}

impl ButtonConfigs {
    /// The buttons' macros as a list, in the profile's order.
    pub fn to_config(&self) -> (res: Vec<ButtonConfig>)
        ensures
            res.deep_view() == self@,
    {
        let res = vec![
            clone_button_config(&self.scroll_button),
            clone_button_config(&self.left_actionlock),
            clone_button_config(&self.right_actionlock),
            clone_button_config(&self.forwards_button),
            clone_button_config(&self.back_button),
            clone_button_config(&self.thumb_anticlockwise),
            clone_button_config(&self.thumb_clockwise),
            clone_button_config(&self.hat_top),
            clone_button_config(&self.hat_left),
            clone_button_config(&self.hat_right),
            clone_button_config(&self.hat_bottom),
            clone_button_config(&self.button_1),
            clone_button_config(&self.precision_aim),
            clone_button_config(&self.button_2),
            clone_button_config(&self.button_3),
        ];
        assert(res.deep_view() =~= self@);
        res
    }

    /// The buttons' macros from a list in the profile's order; entries after
    /// the fifteenth are ignored.
    pub fn from_config(data: &Vec<ButtonConfig>) -> (res: Self)
        requires
            data@.len() >= BUTTON_COUNT,
        ensures
            res@ == data.deep_view().subrange(0, BUTTON_COUNT as int),
    {
        let res = ButtonConfigs {
            scroll_button: clone_button_config(&data[0]),
            left_actionlock: clone_button_config(&data[1]),
            right_actionlock: clone_button_config(&data[2]),
            forwards_button: clone_button_config(&data[3]),
            back_button: clone_button_config(&data[4]),
            thumb_anticlockwise: clone_button_config(&data[5]),
            thumb_clockwise: clone_button_config(&data[6]),
            hat_top: clone_button_config(&data[7]),
            hat_left: clone_button_config(&data[8]),
            hat_right: clone_button_config(&data[9]),
            hat_bottom: clone_button_config(&data[10]),
            button_1: clone_button_config(&data[11]),
            precision_aim: clone_button_config(&data[12]),
            button_2: clone_button_config(&data[13]),
            button_3: clone_button_config(&data[14]),
        };
        assert(res@ =~= data.deep_view().subrange(0, BUTTON_COUNT as int));
        res
    }
}

impl Clone for ButtonConfigs {
    fn clone(&self) -> (res: Self)
        ensures
            res@ == self@,
    {
        ButtonConfigs {
            scroll_button: clone_button_config(&self.scroll_button),
            left_actionlock: clone_button_config(&self.left_actionlock),
            right_actionlock: clone_button_config(&self.right_actionlock),
            forwards_button: clone_button_config(&self.forwards_button),
            back_button: clone_button_config(&self.back_button),
            thumb_anticlockwise: clone_button_config(&self.thumb_anticlockwise),
            thumb_clockwise: clone_button_config(&self.thumb_clockwise),
            hat_top: clone_button_config(&self.hat_top),
            hat_left: clone_button_config(&self.hat_left),
            hat_right: clone_button_config(&self.hat_right),
            hat_bottom: clone_button_config(&self.hat_bottom),
            button_1: clone_button_config(&self.button_1),
            precision_aim: clone_button_config(&self.precision_aim),
            button_2: clone_button_config(&self.button_2),
            button_3: clone_button_config(&self.button_3),
        }
    }
}

/// The profile of a newly seen mouse: no button has a macro.
pub open spec fn empty_profile() -> Seq<SpecButtonConfig> {
    Seq::new(BUTTON_COUNT as nat, |i: int| seq![Seq::<Seq<char>>::empty(), Seq::<Seq<char>>::empty()])
}

impl Default for ButtonConfigs {
    fn default() -> (res: Self)
        ensures
            res@ == empty_profile(),
    {
        let res = ButtonConfigs {
            scroll_button: empty_button_config(),
            left_actionlock: empty_button_config(),
            right_actionlock: empty_button_config(),
            forwards_button: empty_button_config(),
            back_button: empty_button_config(),
            thumb_anticlockwise: empty_button_config(),
            thumb_clockwise: empty_button_config(),
            hat_top: empty_button_config(),
            hat_left: empty_button_config(),
            hat_right: empty_button_config(),
            hat_bottom: empty_button_config(),
            button_1: empty_button_config(),
            precision_aim: empty_button_config(),
            button_2: empty_button_config(),
            button_3: empty_button_config(),
        };
        assert(res@ =~= empty_profile());
        res
    }
}

/// Law: a profile read back from the list that `to_config` writes is the
/// same profile (`to_config` gives a list whose value is `configs@`, and
/// `from_config` keeps the first fifteen entries of it).
pub proof fn lemma_config_round_trip(configs: ButtonConfigs)
    ensures
        configs@.len() == BUTTON_COUNT,
        configs@.subrange(0, BUTTON_COUNT as int) == configs@,
{
    assert(configs@.subrange(0, BUTTON_COUNT as int) =~= configs@);
}

} // verus!
