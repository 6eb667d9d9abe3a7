use omarchy_theme_studio::theme::{PaletteField, RgbColor};
use omarchy_theme_studio::ui::picker::{Control, Picker, PickerMode};
use omarchy_theme_studio::ui::state::InputMode;
use omarchy_theme_studio::ui::App;

#[test]
fn nudges_move_the_focused_channel_with_clamping() {
    let mut app = App::default();
    let mut picker = Picker::new();
    picker.open(&mut app);
    assert_eq!(app.input_mode, InputMode::ColorPicker);
    assert_eq!(picker.focus(), Control::First);
    app.apply_current_color(RgbColor::new(10, 200, 250));
    picker.nudge(&mut app, 8);
    assert_eq!(app.current_color(), RgbColor::new(18, 200, 250));
    picker.focus_next();
    picker.nudge(&mut app, -255);
    assert_eq!(app.current_color(), RgbColor::new(18, 0, 250));
    picker.focus_next();
    picker.nudge(&mut app, 32);
    assert_eq!(app.current_color(), RgbColor::new(18, 0, 255));
    picker.focus_next();
    assert_eq!(picker.focus(), Control::Hex);
    picker.nudge(&mut app, 32);
    assert_eq!(app.current_color(), RgbColor::new(18, 0, 255));
    picker.focus_next();
    assert_eq!(picker.focus(), Control::First);
    picker.focus_prev();
    assert_eq!(picker.focus(), Control::Hex);
    assert_eq!(picker.mode(), PickerMode::Rgb);
    picker.toggle_mode();
    assert_eq!(picker.mode(), PickerMode::Hsl);
    app.close_color_picker(false);
    assert_eq!(app.theme.palette.background, RgbColor::new(0x1a, 0x1b, 0x26));
    // The mode is kept; the focus starts over.
    picker.open(&mut app);
    assert_eq!(picker.mode(), PickerMode::Hsl);
    assert_eq!(picker.focus(), Control::First);
}

#[test]
fn hex_line_takes_six_digits_and_applies_them() {
    let mut app = App::default();
    app.select_group_index(4);
    assert_eq!(app.selected, PaletteField::TerminalBackground);
    let mut picker = Picker::new();
    picker.open(&mut app);
    assert!(picker.hex_line().is_none());
    picker.push_hex('a');
    assert!(picker.hex_line().is_none());
    picker.begin_hex();
    assert_eq!(picker.hex_line(), Some("#"));
    for c in "12zAb-C9ff".chars() {
        picker.push_hex(c);
    }
    // Only hex digits, and at most six of them.
    assert_eq!(picker.hex_line(), Some("#12AbC9"));
    picker.pop_hex();
    picker.pop_hex();
    assert_eq!(picker.hex_line(), Some("#12Ab"));
    picker.push_hex('0');
    picker.push_hex('0');
    picker.commit_hex(&mut app);
    assert!(picker.hex_line().is_none());
    assert_eq!(app.current_color(), RgbColor::new(0x12, 0xab, 0x00));
    assert!(app.dirty);
}

#[test]
fn short_hex_line_is_refused() {
    let mut app = App::default();
    let before = app.theme.palette;
    let mut picker = Picker::new();
    picker.begin_hex();
    picker.pop_hex();
    assert_eq!(picker.hex_line(), Some("#"));
    picker.push_hex('f');
    picker.commit_hex(&mut app);
    assert_eq!(app.message.as_deref(), Some("✗ Not a color: #f"));
    assert_eq!(app.theme.palette, before);
    picker.begin_hex();
    picker.cancel_hex();
    assert!(picker.hex_line().is_none());
}
