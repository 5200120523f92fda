//! The screen's state: a click counter, a toggle, and a message line,
//! with one transition per button, and the texts of the three labels.

use vstd::prelude::*;

use crate::text::{count_text, decimal, on_off_str, on_off_text};
use crate::visual::{button_color, button_color_spec, ButtonKind, Interaction, Rgb};

verus! {

/// The greeting shown before any button has been pressed.
pub open spec fn welcome_text() -> Seq<char> {
    "Welcome to Rust GUI!"@
}

/// The message after the click button has been pressed, given the new
/// count and the new toggle state.
pub open spec fn click_message(count: int, state: bool) -> Seq<char>
    recommends
        0 <= count,
{
    if count == 1 {
        "Button clicked for the first time!"@
    } else {
        "Button clicked "@ + decimal(count as nat) + " times! Current state: "@ + on_off_text(
            state,
        )
    }
}

/// The log line written after the click button has been pressed.
pub open spec fn click_log_text(count: int) -> Seq<char>
    recommends
        0 <= count,
{
    "Button clicked, count: "@ + decimal(count as nat)
}

/// The message after the double-click button has been pressed, given the
/// new count.
pub open spec fn double_click_message(count: int) -> Seq<char>
    recommends
        0 <= count,
{
    "Double click! Total: "@ + decimal(count as nat) + " clicks"@
}

/// The message the special-effect button picks for a count.
pub open spec fn special_effect_message(count: int) -> Seq<char> {
    if count > 10 {
        "Amazing! You're a clicking master!"@
    } else if count > 5 {
        "Good job! Keep clicking!"@
    } else {
        "Just getting started!"@
    }
}

/// The summary the info button reports.
pub open spec fn info_message(count: int, state: bool) -> Seq<char>
    recommends
        0 <= count,
{
    "GUI Info: "@ + decimal(count as nat) + " clicks, state: "@ + on_off_text(state)
}

/// The log line written when the interface is reset.
pub open spec fn reset_log_text() -> Seq<char> {
    "GUI Reset!"@
}

/// The text of the counter label.
pub open spec fn counter_label_text(count: int) -> Seq<char>
    recommends
        0 <= count,
{
    "Clicks: "@ + decimal(count as nat)
}

/// The text of the status label.
pub open spec fn status_label_text(state: bool) -> Seq<char> {
    "Button State: "@ + on_off_text(state)
}

/// Holds of `log` when it carries exactly the text `t`.
pub open spec fn log_is(log: Option<String>, t: Seq<char>) -> bool {
    match log {
        Some(s) => s@ == t,
        None => false,
    }
}

/// The state of the screen.
pub struct GuiState {
    pub click_count: i32,
    pub button_state: bool,
    pub message: String,
}

impl GuiState {
    /// The counter never goes below zero.
    pub open spec fn wf(self) -> bool {
        0 <= self.click_count
    }

    /// Presses the main click button: counts the click, toggles the state,
    /// and rewrites the message line.
    pub fn click_pressed(&mut self)
        requires
            old(self).wf(),
            old(self).click_count < i32::MAX,
        ensures
            final(self).wf(),
            final(self).click_count == old(self).click_count + 1,
            final(self).button_state == !old(self).button_state,
            final(self).message@ == click_message(
                old(self).click_count + 1,
                !old(self).button_state,
            ),
    {
        self.click_count = self.click_count + 1;
        self.button_state = !self.button_state;
        if self.click_count == 1 {
            self.message = String::from_str("Button clicked for the first time!");
        } else {
            let mut m = String::from_str("Button clicked ");
            m.append(count_text(self.click_count).as_str());
            m.append(" times! Current state: ");
            m.append(on_off_str(self.button_state));
            proof {
                assert(m@ =~= click_message(self.click_count as int, self.button_state));
            }
            self.message = m;
        }
    }

    /// Presses the reset button: back to the initial state.
    pub fn reset_pressed(&mut self)
        ensures
            final(self).wf(),
            final(self).click_count == 0,
            !final(self).button_state,
            final(self).message@ == welcome_text(),
    {
        *self = GuiState::default();
    }

    /// Presses the double-click button: counts two clicks at once, toggles
    /// the state, and reports the new total.
    pub fn double_click_pressed(&mut self)
        requires
            old(self).wf(),
            old(self).click_count <= i32::MAX - 2,
        ensures
            final(self).wf(),
            final(self).click_count == old(self).click_count + 2,
            final(self).button_state == !old(self).button_state,
            final(self).message@ == double_click_message(old(self).click_count + 2),
    {
        self.click_count = self.click_count + 2;
        self.button_state = !self.button_state;
        let mut m = String::from_str("Double click! Total: ");
        m.append(count_text(self.click_count).as_str());
        m.append(" clicks");
        proof {
            assert(m@ =~= double_click_message(self.click_count as int));
        }
        self.message = m;
    }

    /// Presses the special-effect button: keeps the count and the toggle,
    /// and picks a message for the count reached so far.
    pub fn special_effect_pressed(&mut self)
        ensures
            final(self).click_count == old(self).click_count,
            final(self).button_state == old(self).button_state,
            final(self).message@ == special_effect_message(old(self).click_count as int),
            old(self).wf() ==> final(self).wf(),
    {
        if self.click_count > 10 {
            self.message = String::from_str("Amazing! You're a clicking master!");
        } else if self.click_count > 5 {
            self.message = String::from_str("Good job! Keep clicking!");
        } else {
            self.message = String::from_str("Just getting started!");
        }
    }

    /// The summary the info button prints.
    pub fn info_text(&self) -> (r: String)
        requires
            self.wf(),
        ensures
            r@ == info_message(self.click_count as int, self.button_state),
    {
        let mut m = String::from_str("GUI Info: ");
        m.append(count_text(self.click_count).as_str());
        m.append(" clicks, state: ");
        m.append(on_off_str(self.button_state));
        proof {
            assert(m@ =~= info_message(self.click_count as int, self.button_state));
        }
        m
    }

    /// The text of the counter label for this state.
    pub fn counter_text(&self) -> (r: String)
        requires
            self.wf(),
        ensures
            r@ == counter_label_text(self.click_count as int),
    {
        let mut m = String::from_str("Clicks: ");
        m.append(count_text(self.click_count).as_str());
        proof {
            assert(m@ =~= counter_label_text(self.click_count as int));
        }
        m
    }

    /// The text of the status label for this state.
    pub fn status_text(&self) -> (r: String)
        ensures
            r@ == status_label_text(self.button_state),
    {
        let mut m = String::from_str("Button State: ");
        m.append(on_off_str(self.button_state));
        proof {
            assert(m@ =~= status_label_text(self.button_state));
        }
        m
    }

    /// One step of the interface: a button saw an interaction. Returns the
    /// colour the button takes and, for a press, the line to log.
    pub fn handle_interaction(&mut self, kind: ButtonKind, interaction: Interaction) -> (out: (
        Rgb,
        Option<String>,
    ))
        requires
            old(self).wf(),
            old(self).click_count <= i32::MAX - 2,
        ensures
            final(self).wf(),
            out.0 == button_color_spec(kind, interaction, final(self).button_state),
            !(interaction is Pressed) ==> *final(self) == *old(self) && out.1 is None,
            interaction is Pressed && kind is Click ==> {
                &&& final(self).click_count == old(self).click_count + 1
                &&& final(self).button_state == !old(self).button_state
                &&& final(self).message@ == click_message(
                    old(self).click_count + 1,
                    !old(self).button_state,
                )
                &&& log_is(out.1, click_log_text(old(self).click_count + 1))
            },
            interaction is Pressed && kind is Reset ==> {
                &&& final(self).click_count == 0
                &&& !final(self).button_state
                &&& final(self).message@ == welcome_text()
                &&& log_is(out.1, reset_log_text())
            },
            interaction is Pressed && kind is Info ==> {
                &&& *final(self) == *old(self)
                &&& log_is(
                    out.1,
                    info_message(old(self).click_count as int, old(self).button_state),
                )
            },
            interaction is Pressed && kind is DoubleClick ==> {
                &&& final(self).click_count == old(self).click_count + 2
                &&& final(self).button_state == !old(self).button_state
                &&& final(self).message@ == double_click_message(old(self).click_count + 2)
                &&& log_is(out.1, double_click_message(old(self).click_count + 2))
            },
            interaction is Pressed && kind is SpecialEffect ==> {
                &&& final(self).click_count == old(self).click_count
                &&& final(self).button_state == old(self).button_state
                &&& final(self).message@ == special_effect_message(old(self).click_count as int)
                &&& log_is(out.1, special_effect_message(old(self).click_count as int))
            },
    {
        let log: Option<String> = match interaction {
            Interaction::Pressed => match kind {
                ButtonKind::Click => {
                    self.click_pressed();
                    let mut m = String::from_str("Button clicked, count: ");
                    m.append(count_text(self.click_count).as_str());
                    proof {
                        assert(m@ =~= click_log_text(self.click_count as int));
                    }
                    Some(m)
                },
                ButtonKind::Reset => {
                    self.reset_pressed();
                    Some(String::from_str("GUI Reset!"))
                },
                ButtonKind::Info => Some(self.info_text()),
                ButtonKind::DoubleClick => {
                    self.double_click_pressed();
                    Some(self.message.clone())
                },
                ButtonKind::SpecialEffect => {
                    self.special_effect_pressed();
                    Some(self.message.clone())
                },
            },
            _ => None,
        };
        let color = button_color(kind, interaction, self.button_state);
        (color, log)
    }
}

impl Default for GuiState {
    /// The initial state: no clicks, toggle off, the greeting shown.
    fn default() -> (r: Self)
        ensures
            r.wf(),
            r.click_count == 0,
            !r.button_state,
            r.message@ == welcome_text(),
    {
        GuiState {
            click_count: 0,
            button_state: false,
            message: String::from_str("Welcome to Rust GUI!"),
        }
    }
}

} // verus!
