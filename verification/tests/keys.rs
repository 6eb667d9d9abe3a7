use omarchy_theme_studio::ui::keys::{command_for, Command, Key, KeyPress, LoaderKeys, PickerKeys};
use omarchy_theme_studio::ui::picker::Control;
use omarchy_theme_studio::ui::state::{InputMode, ThemeFilter};

fn press(key: Key) -> KeyPress {
    KeyPress { key, shift: false, alt: false }
}

const LIST: LoaderKeys = LoaderKeys { search_focused: false, query_empty: true };
const SLIDERS: PickerKeys = PickerKeys { hex_editing: false, focus: Control::First, hsl: false };
const TYPING_HEX: PickerKeys = PickerKeys { hex_editing: true, focus: Control::Hex, hsl: false };

fn cmd(mode: InputMode, key: Key) -> Command {
    command_for(mode, press(key), LIST, SLIDERS)
}

#[test]
fn preview_keys_follow_the_readme() {
    let m = InputMode::Preview;
    for (c, n) in [('1', 0), ('2', 1), ('3', 2), ('4', 3), ('5', 4), ('6', 5)] {
        assert_eq!(cmd(m, Key::Char(c)), Command::SelectGroup(n));
    }
    assert_eq!(cmd(m, Key::Char('7')), Command::Nothing);
    assert_eq!(cmd(m, Key::Left), Command::PrevGroup);
    assert_eq!(cmd(m, Key::BackTab), Command::PrevGroup);
    assert_eq!(cmd(m, Key::Right), Command::NextGroup);
    assert_eq!(cmd(m, Key::Tab), Command::NextGroup);
    assert_eq!(cmd(m, Key::Up), Command::PrevField);
    assert_eq!(cmd(m, Key::Char('k')), Command::PrevField);
    assert_eq!(cmd(m, Key::Down), Command::NextField);
    assert_eq!(cmd(m, Key::Char('j')), Command::NextField);
    assert_eq!(cmd(m, Key::Char('/')), Command::OpenFinder);
    assert_eq!(cmd(m, Key::Char('c')), Command::OpenPicker);
    assert_eq!(cmd(m, Key::Enter), Command::OpenPicker);
    assert_eq!(cmd(m, Key::Char('y')), Command::Yank);
    assert_eq!(cmd(m, Key::Char('p')), Command::Paste);
    assert_eq!(cmd(m, Key::Char('u')), Command::Undo);
    assert_eq!(cmd(m, Key::Char('s')), Command::OpenNamePrompt);
    assert_eq!(cmd(m, Key::Char('l')), Command::OpenLoader);
    assert_eq!(cmd(m, Key::Char('a')), Command::BeginApply);
    assert_eq!(cmd(m, Key::Char('U')), Command::SelfUpdate);
    assert_eq!(cmd(m, Key::Char('?')), Command::OpenHelp);
    assert_eq!(cmd(m, Key::Char('q')), Command::Quit);
    assert_eq!(cmd(m, Key::Esc), Command::Quit);
}

#[test]
fn loader_keys_follow_the_readme() {
    let m = InputMode::ThemeLoad;
    assert_eq!(cmd(m, Key::Char('d')), Command::Filter(ThemeFilter::Builtin));
    assert_eq!(cmd(m, Key::Char('s')), Command::Filter(ThemeFilter::Saved));
    assert_eq!(cmd(m, Key::Char('r')), Command::BeginRename);
    assert_eq!(cmd(m, Key::Char('x')), Command::BeginDelete);
    assert_eq!(cmd(m, Key::Char('/')), Command::FocusSearch);
    assert_eq!(cmd(m, Key::Char('n')), Command::SearchType('n'));
    assert_eq!(cmd(m, Key::Up), Command::LoaderUp);
    assert_eq!(cmd(m, Key::Down), Command::LoaderDown);
    assert_eq!(cmd(m, Key::Enter), Command::LoadSelected);
    assert_eq!(cmd(m, Key::Esc), Command::CancelLoader);
    let typing = LoaderKeys { search_focused: true, query_empty: false };
    assert_eq!(command_for(m, press(Key::Char('d')), typing, SLIDERS), Command::SearchType('d'));
    assert_eq!(command_for(m, press(Key::Enter), typing, SLIDERS), Command::EndSearch);
    assert_eq!(command_for(m, press(Key::Down), typing, SLIDERS), Command::EndSearch);
    assert_eq!(command_for(m, press(Key::Esc), typing, SLIDERS), Command::ClearSearch);
    assert_eq!(command_for(m, press(Key::Backspace), typing, SLIDERS), Command::SearchBackspace);
}

#[test]
fn picker_keys_nudge_and_take_hex() {
    let m = InputMode::ColorPicker;
    assert_eq!(cmd(m, Key::Up), Command::Nudge(8));
    assert_eq!(cmd(m, Key::Left), Command::Nudge(-8));
    let shift = KeyPress { key: Key::Right, shift: true, alt: false };
    assert_eq!(command_for(m, shift, LIST, SLIDERS), Command::Nudge(32));
    let alt = KeyPress { key: Key::Down, shift: false, alt: true };
    assert_eq!(command_for(m, alt, LIST, SLIDERS), Command::Nudge(-1));
    let hsl = PickerKeys { hsl: true, ..SLIDERS };
    assert_eq!(command_for(m, shift, LIST, hsl), Command::HslNudge(32));
    assert_eq!(cmd(m, Key::Tab), Command::FocusNext);
    assert_eq!(cmd(m, Key::BackTab), Command::FocusPrev);
    assert_eq!(cmd(m, Key::Char('m')), Command::ToggleMode);
    assert_eq!(cmd(m, Key::Char('#')), Command::HexBegin);
    assert_eq!(cmd(m, Key::Enter), Command::KeepColor);
    let on_hex = PickerKeys { focus: Control::Hex, ..SLIDERS };
    assert_eq!(command_for(m, press(Key::Enter), LIST, on_hex), Command::HexBegin);
    assert_eq!(cmd(m, Key::Esc), Command::CancelColor);
    assert_eq!(command_for(m, press(Key::Char('a')), LIST, TYPING_HEX), Command::HexType('a'));
    assert_eq!(command_for(m, press(Key::Enter), LIST, TYPING_HEX), Command::HexCommit);
    assert_eq!(command_for(m, press(Key::Esc), LIST, TYPING_HEX), Command::HexCancel);
    assert_eq!(command_for(m, press(Key::Up), LIST, TYPING_HEX), Command::Nothing);
}

#[test]
fn prompts_and_help_keys() {
    assert_eq!(cmd(InputMode::FieldSearch, Key::Up), Command::FinderMove(-1));
    assert_eq!(cmd(InputMode::FieldSearch, Key::Char('q')), Command::FinderType('q'));
    assert_eq!(cmd(InputMode::FieldSearch, Key::Enter), Command::FinderCommit);
    assert_eq!(cmd(InputMode::ThemeNameInput, Key::Enter), Command::SaveAs);
    assert_eq!(cmd(InputMode::ThemeNameInput, Key::Esc), Command::LeaveNamePrompt);
    assert_eq!(cmd(InputMode::ThemeLoadRename, Key::Enter), Command::CommitRename);
    assert_eq!(cmd(InputMode::ThemeLoadRename, Key::Esc), Command::BackToLoader);
    assert_eq!(cmd(InputMode::ApplyConfirm, Key::Char('Y')), Command::ConfirmApply);
    assert_eq!(cmd(InputMode::ApplyConfirm, Key::Char('x')), Command::Nothing);
    assert_eq!(cmd(InputMode::ApplyConfirm, Key::Esc), Command::CancelApply);
    assert_eq!(cmd(InputMode::ThemeLoadDeleteConfirm, Key::Char('y')), Command::ConfirmDelete);
    assert_eq!(cmd(InputMode::ThemeLoadDeleteConfirm, Key::Char('n')), Command::BackToLoader);
    assert_eq!(cmd(InputMode::UpdateRestartConfirm, Key::Enter), Command::Restart);
    assert_eq!(cmd(InputMode::UpdateRestartConfirm, Key::Char('L')), Command::DeferRestart);
    assert_eq!(cmd(InputMode::Help, Key::PageDown), Command::HelpDown(10));
    assert_eq!(cmd(InputMode::Help, Key::Char('k')), Command::HelpUp(1));
    assert_eq!(cmd(InputMode::Help, Key::End), Command::HelpBottom);
    assert_eq!(cmd(InputMode::Help, Key::Char('?')), Command::CloseHelp);
}
