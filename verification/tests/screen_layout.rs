use gui_demo::screen::{initial_screen, window_config, EdgePx};
use gui_demo::visual::{button_color, ButtonKind, Interaction, Rgb};

#[test]
fn window() {
    let w = window_config();
    assert_eq!(w.title, "Rust GUI on iOS");
    assert_eq!(w.width_px, 375);
    assert_eq!(w.height_px, 667);
    assert!(!w.resizable);
}

#[test]
fn root_container() {
    let s = initial_screen();
    assert_eq!(s.background, Rgb { red_milli: 150, green_milli: 150, blue_milli: 150 });
    assert_eq!(s.padding, EdgePx { top: 20, right: 20, bottom: 20, left: 20 });
    assert_eq!(s.row_gap_px, 20);
    assert_eq!(s.button_row_gap_px, 10);
}

#[test]
fn labels_show_the_initial_state() {
    let s = initial_screen();
    assert_eq!(s.title.text, "Rust GUI on iOS");
    assert_eq!(s.title.font_size_px, 32);
    assert_eq!(s.status.text, "Button State: OFF");
    assert_eq!(s.status.font_size_px, 18);
    assert_eq!(s.counter.text, "Clicks: 0");
    assert_eq!(s.counter.font_size_px, 20);
    assert_eq!(s.message.text, "Welcome to Rust GUI!");
    assert_eq!(s.message.font_size_px, 16);
    let white = Rgb { red_milli: 1000, green_milli: 1000, blue_milli: 1000 };
    assert_eq!(s.title.color, white);
    assert_eq!(s.status.color, white);
    assert_eq!(s.counter.color, white);
    assert_eq!(s.message.color, white);
}

#[test]
fn click_button_definition() {
    let s = initial_screen();
    let b = s.click_button;
    assert_eq!(b.kind, ButtonKind::Click);
    assert_eq!(b.caption, "Click Me! (Rust GUI)");
    assert_eq!(b.caption_font_size_px, 20);
    assert_eq!((b.width_px, b.height_px), (300, 60));
    assert_eq!(b.background, Rgb { red_milli: 200, green_milli: 400, blue_milli: 1000 });
    assert_eq!(b.margin, EdgePx { top: 10, right: 10, bottom: 10, left: 10 });
}

#[test]
fn row_button_definitions() {
    let s = initial_screen();
    let info = s.info_button;
    assert_eq!(info.kind, ButtonKind::Info);
    assert_eq!(info.caption, "Get Info");
    assert_eq!((info.width_px, info.height_px), (140, 40));
    let double = s.double_click_button;
    assert_eq!(double.kind, ButtonKind::DoubleClick);
    assert_eq!(double.caption, "Double Click");
    assert_eq!((double.width_px, double.height_px), (140, 40));
    let grey = Rgb { red_milli: 300, green_milli: 300, blue_milli: 300 };
    assert_eq!(info.background, grey);
    assert_eq!(double.background, grey);
}

#[test]
fn special_effect_button_definition() {
    let s = initial_screen();
    let b = s.special_effect_button;
    assert_eq!(b.kind, ButtonKind::SpecialEffect);
    assert_eq!(b.caption, "Special Effect");
    assert_eq!((b.width_px, b.height_px), (200, 40));
    assert_eq!(b.margin, EdgePx { top: 5, right: 5, bottom: 5, left: 5 });
}

#[test]
fn reset_button_definition() {
    let s = initial_screen();
    let b = s.reset_button;
    assert_eq!(b.kind, ButtonKind::Reset);
    assert_eq!(b.caption, "Reset GUI");
    assert_eq!((b.width_px, b.height_px), (160, 40));
    assert_eq!(b.background, Rgb { red_milli: 800, green_milli: 200, blue_milli: 200 });
    assert_eq!(b.margin, EdgePx { top: 20, right: 0, bottom: 20, left: 0 });
}

#[test]
fn buttons_start_in_their_idle_colors() {
    let s = initial_screen();
    assert_eq!(s.click_button.background, button_color(ButtonKind::Click, Interaction::Idle, false));
    assert_eq!(s.reset_button.background, button_color(ButtonKind::Reset, Interaction::Idle, false));
    assert_eq!(s.info_button.background, button_color(ButtonKind::Info, Interaction::Idle, false));
}

#[test]
fn click_button_palette() {
    assert_eq!(
        button_color(ButtonKind::Click, Interaction::Pressed, false),
        Rgb { red_milli: 100, green_milli: 300, blue_milli: 800 }
    );
    assert_eq!(
        button_color(ButtonKind::Click, Interaction::Pressed, true),
        Rgb { red_milli: 100, green_milli: 300, blue_milli: 800 }
    );
    assert_eq!(
        button_color(ButtonKind::Click, Interaction::Hovered, true),
        Rgb { red_milli: 300, green_milli: 700, blue_milli: 300 }
    );
    assert_eq!(
        button_color(ButtonKind::Click, Interaction::Hovered, false),
        Rgb { red_milli: 300, green_milli: 500, blue_milli: 1200 }
    );
    assert_eq!(
        button_color(ButtonKind::Click, Interaction::Idle, true),
        Rgb { red_milli: 200, green_milli: 600, blue_milli: 200 }
    );
    assert_eq!(
        button_color(ButtonKind::Click, Interaction::Idle, false),
        Rgb { red_milli: 200, green_milli: 400, blue_milli: 1000 }
    );
}

#[test]
fn grey_buttons_ignore_the_toggle() {
    for kind in [ButtonKind::Info, ButtonKind::DoubleClick, ButtonKind::SpecialEffect] {
        for state in [false, true] {
            assert_eq!(
                button_color(kind, Interaction::Pressed, state),
                Rgb { red_milli: 200, green_milli: 200, blue_milli: 200 }
            );
            assert_eq!(
                button_color(kind, Interaction::Hovered, state),
                Rgb { red_milli: 400, green_milli: 400, blue_milli: 400 }
            );
            assert_eq!(
                button_color(kind, Interaction::Idle, state),
                Rgb { red_milli: 300, green_milli: 300, blue_milli: 300 }
            );
        }
    }
}
