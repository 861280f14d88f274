use vstd::prelude::*;

use crate::knob::LEVELS;
use vstd::string::*;

verus! {

/// What the two buttons select for the knob to control. Both buttons take
/// precedence over either one alone.
/// - `ABPressed`: the red level;
/// - `APressed`: the blue level;
/// - `BPressed`: the green level;
/// - `Neither`: the frame rate.
#[derive(Clone, Copy, Debug, PartialEq, Eq, Structural)]
pub enum ButtonState {
    APressed,
    BPressed,
    ABPressed,
    Neither,
}

/// Classification of the buttons, `true` meaning pressed; both are checked
/// before either one alone.
pub open spec fn classify(a_pressed: bool, b_pressed: bool) -> ButtonState {
    if a_pressed && b_pressed {
        ButtonState::ABPressed
    } else if a_pressed {
        ButtonState::APressed
    } else if b_pressed {
        ButtonState::BPressed
    } else {
        ButtonState::Neither
    }
}

/// Classifies the two button inputs (`true` meaning pressed).
pub fn button_state(a_pressed: bool, b_pressed: bool) -> (r: ButtonState)
    ensures
        r == classify(a_pressed, b_pressed),
{
    if a_pressed && b_pressed {
        ButtonState::ABPressed
    } else if a_pressed {
        ButtonState::APressed
    } else if b_pressed {
        ButtonState::BPressed
    } else {
        ButtonState::Neither
    }
}

/// The frame rate that a level stands for.
pub open spec fn frame_rate_of(level: u32) -> u64 {
    ((level + 1) * 10) as u64
}

/// The index in `levels` of the colour a button state selects, if any.
pub open spec fn colour_index(b: ButtonState) -> int {
    match b {
        ButtonState::ABPressed => 0,
        ButtonState::BPressed => 1,
        ButtonState::APressed => 2,
        ButtonState::Neither => -1,
    }
}

/// The value that setting `level` asks of the target `b` selects.
pub open spec fn requested(b: ButtonState, level: u32) -> int {
    if b == ButtonState::Neither {
        frame_rate_of(level) as int
    } else {
        level as int
    }
}

/// The state as plain values: red, green and blue levels, and frame rate.
pub struct UiModel {
    pub levels: Seq<u32>,
    pub frame_rate: u64,
}

impl UiModel {
    /// Three levels, each below `LEVELS`, and a frame rate that a level
    /// stands for.
    pub open spec fn wf(self) -> bool {
        &&& self.levels.len() == 3
        &&& forall|i: int| 0 <= i < 3 ==> #[trigger] self.levels[i] < LEVELS
        &&& self.frame_rate % 10 == 0
        &&& 10 <= self.frame_rate <= 10 * LEVELS
    }

    /// The state at start-up: every colour at its highest level, frame rate 100.
    pub open spec fn initial() -> UiModel {
        UiModel { levels: seq![(LEVELS - 1) as u32, (LEVELS - 1) as u32, (LEVELS - 1) as u32], frame_rate: 100 }
    }

    /// The current value of the target that `b` selects.
    pub open spec fn current(self, b: ButtonState) -> int {
        if b == ButtonState::Neither {
            self.frame_rate as int
        } else {
            self.levels[colour_index(b)] as int
        }
    }

    /// Whether setting `level` under `b` changes the selected target.
    pub open spec fn changes(self, b: ButtonState, level: u32) -> bool {
        self.current(b) != requested(b, level)
    }

    /// The state with the target that `b` selects set from `level`.
    pub open spec fn with_target(self, b: ButtonState, level: u32) -> UiModel {
        if b == ButtonState::Neither {
            UiModel { levels: self.levels, frame_rate: frame_rate_of(level) }
        } else {
            UiModel { levels: self.levels.update(colour_index(b), level), frame_rate: self.frame_rate }
        }
    }

    /// The state after setting `level` under `b`: unchanged when the target
    /// already holds the requested value.
    pub open spec fn after_set(self, b: ButtonState, level: u32) -> UiModel {
        if self.changes(b, level) {
            self.with_target(b, level)
        } else {
            self
        }
    }

    /// What setting `level` under `b` reports: the button state when the
    /// target changed, `None` when it did not.
    pub open spec fn set_outcome(self, b: ButtonState, level: u32) -> Option<ButtonState> {
        if self.changes(b, level) {
            Some(b)
        } else {
            None
        }
    }
}

/// The colour levels (red, green, blue) and the frame rate.
#[derive(Clone, Copy, Debug)]
pub struct UiState {
    pub levels: [u32; 3],
    pub frame_rate: u64,
}

impl View for UiState {
    type V = UiModel;

    open spec fn view(&self) -> UiModel {
        UiModel { levels: self.levels@, frame_rate: self.frame_rate }
    }
}

/// A change to hand on to the renderer.
#[derive(Clone, Copy, Debug)]
pub enum Publish {
    /// The new frame rate.
    FrameRate(u64),
    /// The new red, green and blue levels.
    RgbLevels([u32; 3]),
}

impl Default for UiState {
    /// Every colour at its highest level, frame rate 100.
    fn default() -> (r: Self)
        ensures
            r@ == UiModel::initial(),
            r.wf(),
    {
        let r = UiState { levels: [LEVELS - 1, LEVELS - 1, LEVELS - 1], frame_rate: 100 };
        assert(r@.levels =~= UiModel::initial().levels);
        r
    }
}

impl UiState {
    /// Levels below `LEVELS` and a frame rate that a level stands for.
    pub open spec fn wf(&self) -> bool {
        self@.wf()
    }

    /// Sets the target that `buttons` selects from `level`: a colour level
    /// takes `level` itself, the frame rate takes `(level + 1) * 10`. When the
    /// target already holds that value nothing changes and the result is
    /// `None`; otherwise the result is the button state that was acted on.
    pub fn set_level(&mut self, buttons: ButtonState, level: u32) -> (r: Option<ButtonState>)
        requires
            old(self).wf(),
            level < LEVELS,
        ensures
            final(self).wf(),
            r == old(self)@.set_outcome(buttons, level),
            final(self)@ == old(self)@.after_set(buttons, level),
    {
        match buttons {
            ButtonState::APressed => {
                if self.levels[2] == level {
                    return None;
                }
                self.levels[2] = level;
            },
            ButtonState::BPressed => {
                if self.levels[1] == level {
                    return None;
                }
                self.levels[1] = level;
            },
            ButtonState::ABPressed => {
                if self.levels[0] == level {
                    return None;
                }
                self.levels[0] = level;
            },
            ButtonState::Neither => {
                let new_rate: u64 = (level as u64 + 1) * 10;
                if self.frame_rate == new_rate {
                    return None;
                }
                self.frame_rate = new_rate;
            },
        }
        Some(buttons)
    }

    /// The console text for the state: an empty line, one line per colour,
    /// then the frame rate.
    pub fn show(&self) -> (r: String)
        ensures
            r@ == state_text(self@),
    {
        let mut out = String::new();
        out.append("\n");
        out.append("red: ");
        append_decimal(&mut out, self.levels[0] as u64);
        out.append("\n");
        out.append("green: ");
        append_decimal(&mut out, self.levels[1] as u64);
        out.append("\n");
        out.append("blue: ");
        append_decimal(&mut out, self.levels[2] as u64);
        out.append("\n");
        out.append("frame rate: ");
        append_decimal(&mut out, self.frame_rate);
        out.append("\n");
        assert(out@ =~= state_text(self@));
        out
    }

    /// One poll of the controls: classifies the buttons, sets the selected
    /// target from `level`, and says what the renderer must be given. A new
    /// frame rate is handed on alone; a new colour level hands on all three
    /// levels; no change hands on nothing.
    pub fn react(&mut self, level: u32, a_pressed: bool, b_pressed: bool) -> (r: Option<Publish>)
        requires
            old(self).wf(),
            level < LEVELS,
        ensures
            final(self).wf(),
            final(self)@ == old(self)@.after_set(classify(a_pressed, b_pressed), level),
            r is None <==> !old(self)@.changes(classify(a_pressed, b_pressed), level),
            old(self)@.changes(classify(a_pressed, b_pressed), level) && classify(a_pressed, b_pressed)
                == ButtonState::Neither ==> r == Some(Publish::FrameRate(final(self).frame_rate)),
            old(self)@.changes(classify(a_pressed, b_pressed), level) && classify(a_pressed, b_pressed)
                != ButtonState::Neither ==> r == Some(Publish::RgbLevels(final(self).levels)),
    {
        let buttons = button_state(a_pressed, b_pressed);
        match self.set_level(buttons, level) {
            Some(ButtonState::Neither) => Some(Publish::FrameRate(self.frame_rate)),
            Some(_) => Some(Publish::RgbLevels(self.levels)),
            None => None,
        }
    }
}

/// The decimal digit `d` as a character.
pub open spec fn digit_char(d: int) -> char {
    if d == 0 {
        '0'
    } else if d == 1 {
        '1'
    } else if d == 2 {
        '2'
    } else if d == 3 {
        '3'
    } else if d == 4 {
        '4'
    } else if d == 5 {
        '5'
    } else if d == 6 {
        '6'
    } else if d == 7 {
        '7'
    } else if d == 8 {
        '8'
    } else {
        '9'
    }
}

/// The decimal numeral of `n`, without leading zeros.
pub open spec fn decimal(n: nat) -> Seq<char>
    decreases n,
{
    if n < 10 {
        seq![digit_char(n as int)]
    } else {
        decimal(n / 10).push(digit_char((n % 10) as int))
    }
}

/// The console text for a state.
pub open spec fn state_text(m: UiModel) -> Seq<char> {
    "\n"@ + "red: "@ + decimal(m.levels[0] as nat) + "\n"@ + "green: "@ + decimal(m.levels[1] as nat)
        + "\n"@ + "blue: "@ + decimal(m.levels[2] as nat) + "\n"@ + "frame rate: "@ + decimal(
        m.frame_rate as nat,
    ) + "\n"@
}

fn append_digit(s: &mut String, d: u64)
    requires
        d < 10,
    ensures
        final(s)@ == old(s)@.push(digit_char(d as int)),
{
    let t = if d == 0 {
        "0"
    } else if d == 1 {
        "1"
    } else if d == 2 {
        "2"
    } else if d == 3 {
        "3"
    } else if d == 4 {
        "4"
    } else if d == 5 {
        "5"
    } else if d == 6 {
        "6"
    } else if d == 7 {
        "7"
    } else if d == 8 {
        "8"
    } else {
        "9"
    };
    proof {
        reveal_strlit("0");
        reveal_strlit("1");
        reveal_strlit("2");
        reveal_strlit("3");
        reveal_strlit("4");
        reveal_strlit("5");
        reveal_strlit("6");
        reveal_strlit("7");
        reveal_strlit("8");
        reveal_strlit("9");
    }
    assert(t@ =~= seq![digit_char(d as int)]);
    s.append(t);
}

fn append_decimal(s: &mut String, n: u64)
    ensures
        final(s)@ == old(s)@ + decimal(n as nat),
    decreases n,
{
    if n >= 10 {
        append_decimal(s, n / 10);
    }
    append_digit(s, n % 10);
    assert(s@ =~= old(s)@ + decimal(n as nat));
}

/// Setting the same level twice under the same buttons changes nothing the
/// second time, and the second call reports no change.
pub proof fn lemma_set_level_idempotent(m: UiModel, b: ButtonState, level: u32)
    requires
        m.wf(),
        level < LEVELS,
    ensures
        m.after_set(b, level).after_set(b, level) == m.after_set(b, level),
        m.after_set(b, level).set_outcome(b, level) is None,
{
}

/// With both buttons pressed only the red level can change; green, blue and
/// the frame rate stay as they were.
pub proof fn lemma_both_sets_red_only(m: UiModel, level: u32)
    requires
        m.wf(),
        level < LEVELS,
    ensures
        m.after_set(ButtonState::ABPressed, level).levels[0] == level,
        m.after_set(ButtonState::ABPressed, level).levels[1] == m.levels[1],
        m.after_set(ButtonState::ABPressed, level).levels[2] == m.levels[2],
        m.after_set(ButtonState::ABPressed, level).frame_rate == m.frame_rate,
{
}

/// With neither button pressed the frame rate afterwards is exactly
/// `(level + 1) * 10`, and the colour levels stay as they were.
pub proof fn lemma_neither_sets_frame_rate(m: UiModel, level: u32)
    requires
        m.wf(),
        level < LEVELS,
    ensures
        m.after_set(ButtonState::Neither, level).frame_rate == (level + 1) * 10,
        m.after_set(ButtonState::Neither, level).levels == m.levels,
{
}

} // verus!
