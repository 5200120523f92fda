//! The fixed layout of the screen: the window, the four labels, and the
//! five buttons, as plain data. The shell walks this description once at
//! startup and spawns the engine's widgets from it.

use vstd::prelude::*;

use crate::state::{counter_label_text, status_label_text, welcome_text, GuiState};
use crate::visual::{button_color_spec, ButtonKind, Interaction, Rgb};

verus! {

/// The white the labels are drawn in.
pub open spec fn white() -> Rgb {
    Rgb { red_milli: 1000, green_milli: 1000, blue_milli: 1000 }
}

/// The dark grey behind the whole screen.
pub open spec fn screen_background() -> Rgb {
    Rgb { red_milli: 150, green_milli: 150, blue_milli: 150 }
}

/// Margins or padding around a widget, in pixels per side.
#[derive(Clone, Copy, Debug, PartialEq, Eq, Structural)]
pub struct EdgePx {
    pub top: u16,
    pub right: u16,
    pub bottom: u16,
    pub left: u16,
}

/// A text line on the screen.
pub struct LabelDef {
    pub text: String,
    pub font_size_px: u16,
    pub color: Rgb,
}

/// A button on the screen.
pub struct ButtonDef {
    pub kind: ButtonKind,
    pub caption: String,
    pub caption_font_size_px: u16,
    pub width_px: u16,
    pub height_px: u16,
    pub background: Rgb,
    pub margin: EdgePx,
}

/// The window the screen lives in.
pub struct WindowConfig {
    pub title: String,
    pub width_px: u16,
    pub height_px: u16,
    pub resizable: bool,
}

/// The whole screen: a column of labels and buttons on a dark background.
/// The info and double-click buttons sit side by side in one row.
pub struct Screen {
    pub background: Rgb,
    pub padding: EdgePx,
    pub row_gap_px: u16,
    pub button_row_gap_px: u16,
    pub title: LabelDef,
    pub status: LabelDef,
    pub counter: LabelDef,
    pub message: LabelDef,
    pub click_button: ButtonDef,
    pub info_button: ButtonDef,
    pub double_click_button: ButtonDef,
    pub special_effect_button: ButtonDef,
    pub reset_button: ButtonDef,
}

/// Pads or margins all four sides equally.
fn edge_all(px: u16) -> (e: EdgePx)
    ensures
        e == (EdgePx { top: px, right: px, bottom: px, left: px }),
{
    EdgePx { top: px, right: px, bottom: px, left: px }
}

/// The window: a phone-sized portrait window that cannot be resized.
pub fn window_config() -> (w: WindowConfig)
    ensures
        w.title@ == "Rust GUI on iOS"@,
        w.width_px == 375,
        w.height_px == 667,
        !w.resizable,
{
    WindowConfig {
        title: String::from_str("Rust GUI on iOS"),
        width_px: 375,
        height_px: 667,
        resizable: false,
    }
}

/// The screen as first shown: each label carries the text of the initial
/// state, and each button the idle colour of its kind with the toggle off.
pub fn initial_screen() -> (s: Screen)
    ensures
        s.background == screen_background(),
        s.padding == (EdgePx { top: 20, right: 20, bottom: 20, left: 20 }),
        s.row_gap_px == 20,
        s.button_row_gap_px == 10,
        s.title.text@ == "Rust GUI on iOS"@,
        s.title.font_size_px == 32,
        s.title.color == white(),
        s.status.text@ == status_label_text(false),
        s.status.font_size_px == 18,
        s.status.color == white(),
        s.counter.text@ == counter_label_text(0),
        s.counter.font_size_px == 20,
        s.counter.color == white(),
        s.message.text@ == welcome_text(),
        s.message.font_size_px == 16,
        s.message.color == white(),
        s.click_button.kind is Click,
        s.click_button.caption@ == "Click Me! (Rust GUI)"@,
        s.click_button.caption_font_size_px == 20,
        s.click_button.width_px == 300,
        s.click_button.height_px == 60,
        s.click_button.background == button_color_spec(
            ButtonKind::Click,
            Interaction::Idle,
            false,
        ),
        s.click_button.margin == (EdgePx { top: 10, right: 10, bottom: 10, left: 10 }),
        s.info_button.kind is Info,
        s.info_button.caption@ == "Get Info"@,
        s.info_button.caption_font_size_px == 16,
        s.info_button.width_px == 140,
        s.info_button.height_px == 40,
        s.info_button.background == button_color_spec(ButtonKind::Info, Interaction::Idle, false),
        s.info_button.margin == (EdgePx { top: 0, right: 0, bottom: 0, left: 0 }),
        s.double_click_button.kind is DoubleClick,
        s.double_click_button.caption@ == "Double Click"@,
        s.double_click_button.caption_font_size_px == 16,
        s.double_click_button.width_px == 140,
        s.double_click_button.height_px == 40,
        s.double_click_button.background == button_color_spec(
            ButtonKind::DoubleClick,
            Interaction::Idle,
            false,
        ),
        s.double_click_button.margin == (EdgePx { top: 0, right: 0, bottom: 0, left: 0 }),
        s.special_effect_button.kind is SpecialEffect,
        s.special_effect_button.caption@ == "Special Effect"@,
        s.special_effect_button.caption_font_size_px == 16,
        s.special_effect_button.width_px == 200,
        s.special_effect_button.height_px == 40,
        s.special_effect_button.background == button_color_spec(
            ButtonKind::SpecialEffect,
            Interaction::Idle,
            false,
        ),
        s.special_effect_button.margin == (EdgePx { top: 5, right: 5, bottom: 5, left: 5 }),
        s.reset_button.kind is Reset,
        s.reset_button.caption@ == "Reset GUI"@,
        s.reset_button.caption_font_size_px == 16,
        s.reset_button.width_px == 160,
        s.reset_button.height_px == 40,
        s.reset_button.background == button_color_spec(ButtonKind::Reset, Interaction::Idle, false),
        s.reset_button.margin == (EdgePx { top: 20, right: 0, bottom: 20, left: 0 }),
{
    let initial = GuiState::default();
    let counter_text = initial.counter_text();
    let status_text = initial.status_text();
    Screen {
        background: Rgb { red_milli: 150, green_milli: 150, blue_milli: 150 },
        padding: edge_all(20),
        row_gap_px: 20,
        button_row_gap_px: 10,
        title: LabelDef {
            text: String::from_str("Rust GUI on iOS"),
            font_size_px: 32,
            color: Rgb { red_milli: 1000, green_milli: 1000, blue_milli: 1000 },
        },
        status: LabelDef {
            text: status_text,
            font_size_px: 18,
            color: Rgb { red_milli: 1000, green_milli: 1000, blue_milli: 1000 },
        },
        counter: LabelDef {
            text: counter_text,
            font_size_px: 20,
            color: Rgb { red_milli: 1000, green_milli: 1000, blue_milli: 1000 },
        },
        message: LabelDef {
            text: initial.message,
            font_size_px: 16,
            color: Rgb { red_milli: 1000, green_milli: 1000, blue_milli: 1000 },
        },
        click_button: ButtonDef {
            kind: ButtonKind::Click,
            caption: String::from_str("Click Me! (Rust GUI)"),
            caption_font_size_px: 20,
            width_px: 300,
            height_px: 60,
            background: Rgb { red_milli: 200, green_milli: 400, blue_milli: 1000 },
            margin: edge_all(10),
        },
        info_button: ButtonDef {
            kind: ButtonKind::Info,
            caption: String::from_str("Get Info"),
            caption_font_size_px: 16,
            width_px: 140,
            height_px: 40,
            background: Rgb { red_milli: 300, green_milli: 300, blue_milli: 300 },
            margin: edge_all(0),
        },
        double_click_button: ButtonDef {
            kind: ButtonKind::DoubleClick,
            caption: String::from_str("Double Click"),
            caption_font_size_px: 16,
            width_px: 140,
            height_px: 40,
            background: Rgb { red_milli: 300, green_milli: 300, blue_milli: 300 },
            margin: edge_all(0),
        },
        special_effect_button: ButtonDef {
            kind: ButtonKind::SpecialEffect,
            caption: String::from_str("Special Effect"),
            caption_font_size_px: 16,
            width_px: 200,
            height_px: 40,
            background: Rgb { red_milli: 300, green_milli: 300, blue_milli: 300 },
            margin: edge_all(5),
        },
        reset_button: ButtonDef {
            kind: ButtonKind::Reset,
            caption: String::from_str("Reset GUI"),
            caption_font_size_px: 16,
            width_px: 160,
            height_px: 40,
            background: Rgb { red_milli: 800, green_milli: 200, blue_milli: 200 },
            margin: EdgePx { top: 20, right: 0, bottom: 20, left: 0 },
        },
    }
}

} // verus!
