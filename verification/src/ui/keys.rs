//! The key bindings: what each key does in each mode of the editor.
use vstd::prelude::*;
use crate::ui::picker::Control;
use crate::ui::state::{finder_moved, InputMode, ThemeFilter};

verus! {

/// A key, as the terminal reports it.
#[derive(Debug, Clone, Copy, PartialEq, Eq, Structural)]
pub enum Key {
    Char(char),
    Enter,
    Esc,
    Backspace,
    Up,
    Down,
    Left,
    Right,
    Tab,
    BackTab,
    PageUp,
    PageDown,
    Home,
    End,
    /// Any other key.
    Other,
}

/// A key press with the modifiers the color picker reads.
#[derive(Debug, Clone, Copy, PartialEq, Eq, Structural)]
pub struct KeyPress {
    pub key: Key,
    pub shift: bool,
    pub alt: bool,
}

/// What the loader's keys depend on besides the key.
#[derive(Debug, Clone, Copy, PartialEq, Eq, Structural)]
pub struct LoaderKeys {
    /// Keys go to the search text.
    pub search_focused: bool,
    /// The search text is empty.
    pub query_empty: bool,
}

/// What the color picker's keys depend on besides the key.
#[derive(Debug, Clone, Copy, PartialEq, Eq, Structural)]
pub struct PickerKeys {
    /// A hex line is being typed.
    pub hex_editing: bool,
    /// The focused control.
    pub focus: Control,
    /// The picker shows the HSL field rather than the RGB sliders.
    pub hsl: bool,
}

/// What a key asks the editor to do.
#[derive(Debug, Clone, Copy, PartialEq, Eq, Structural)]
pub enum Command {
    Nothing,
    Quit,
    // The preview.
    SelectGroup(usize),
    PrevGroup,
    NextGroup,
    PrevField,
    NextField,
    OpenFinder,
    OpenPicker,
    Yank,
    Paste,
    Undo,
    OpenNamePrompt,
    OpenLoader,
    BeginApply,
    SelfUpdate,
    OpenHelp,
    // The field finder.
    FinderCancel,
    FinderCommit,
    FinderMove(i32),
    FinderBackspace,
    FinderType(char),
    // The name prompt, for saving and for renaming.
    SaveAs,
    LeaveNamePrompt,
    NameBackspace,
    NameType(char),
    CommitRename,
    // Confirmations.
    ConfirmApply,
    CancelApply,
    ConfirmDelete,
    BackToLoader,
    Restart,
    DeferRestart,
    // The loader.
    CancelLoader,
    ClearSearch,
    EndSearch,
    LoadSelected,
    LoaderUp,
    LoaderDown,
    SearchBackspace,
    SearchType(char),
    FocusSearch,
    Filter(ThemeFilter),
    BeginRename,
    BeginDelete,
    // Help.
    CloseHelp,
    HelpUp(u16),
    HelpDown(u16),
    HelpTop,
    HelpBottom,
    // The color picker.
    Nudge(i16),
    HslNudge(i16),
    FocusNext,
    FocusPrev,
    ToggleMode,
    HexBegin,
    HexCommit,
    HexCancel,
    HexBackspace,
    HexType(char),
    KeepColor,
    CancelColor,
}

/// Keys in the preview: `1`–`6` pick a group; ←/→ and Tab/Shift+Tab step
/// through groups; ↑/`k` and ↓/`j` through the group's fields; `/`, `c` or
/// Enter, `y`, `p`, `u`, `s`, `l`, `a`, `U` and `?` open the finder, the
/// picker, yank, paste, undo, save, load, apply, update and help; `q` and
/// Esc quit.
pub open spec fn preview_command(k: Key) -> Command {
    match k {
        Key::Char(c) => {
            if '1' <= c && c <= '6' {
                Command::SelectGroup((c as int - '1' as int) as usize)
            } else if c == 'q' {
                Command::Quit
            } else if c == 'k' {
                Command::PrevField
            } else if c == 'j' {
                Command::NextField
            } else if c == '/' {
                Command::OpenFinder
            } else if c == 'c' {
                Command::OpenPicker
            } else if c == 'y' {
                Command::Yank
            } else if c == 'p' {
                Command::Paste
            } else if c == 'u' {
                Command::Undo
            } else if c == 's' {
                Command::OpenNamePrompt
            } else if c == 'l' {
                Command::OpenLoader
            } else if c == 'a' {
                Command::BeginApply
            } else if c == 'U' {
                Command::SelfUpdate
            } else if c == '?' {
                Command::OpenHelp
            } else {
                Command::Nothing
            }
        },
        Key::Esc => Command::Quit,
        Key::Left | Key::BackTab => Command::PrevGroup,
        Key::Right | Key::Tab => Command::NextGroup,
        Key::Up => Command::PrevField,
        Key::Down => Command::NextField,
        Key::Enter => Command::OpenPicker,
        _ => Command::Nothing,
    }
}

/// Keys in the color picker: hex entry takes typed keys while it is on.
/// Otherwise Tab and Shift+Tab move the focus, `m` switches RGB and HSL,
/// `#` starts hex entry, Enter edits the focused hex field or keeps the
/// color, Esc cancels, and the arrows nudge the focused control by 8 (32
/// with Shift, 1 with Alt): up and right raise it, down and left lower it.
pub open spec fn picker_command(k: KeyPress, p: PickerKeys) -> Command {
    if p.hex_editing {
        match k.key {
            Key::Enter => Command::HexCommit,
            Key::Esc => Command::HexCancel,
            Key::Backspace => Command::HexBackspace,
            Key::Char(c) => Command::HexType(c),
            _ => Command::Nothing,
        }
    } else {
        let step: i16 = if k.shift {
            32
        } else if k.alt {
            1
        } else {
            8
        };
        let up = if p.hsl {
            Command::HslNudge(step)
        } else {
            Command::Nudge(step)
        };
        let down = if p.hsl {
            Command::HslNudge((0 - step) as i16)
        } else {
            Command::Nudge((0 - step) as i16)
        };
        match k.key {
            Key::Up | Key::Right => up,
            Key::Down | Key::Left => down,
            Key::Tab => Command::FocusNext,
            Key::BackTab => Command::FocusPrev,
            Key::Char(c) => if c == '#' {
                Command::HexBegin
            } else if c == 'm' {
                Command::ToggleMode
            } else {
                Command::Nothing
            },
            Key::Enter => if p.focus == Control::Hex {
                Command::HexBegin
            } else {
                Command::KeepColor
            },
            Key::Esc => Command::CancelColor,
            _ => Command::Nothing,
        }
    }
}

/// Keys in the loader: typing searches (a `/` or any key that is not a
/// command starts the search), and while the search has the keys every
/// character goes to it.
pub open spec fn loader_command(k: Key, s: LoaderKeys) -> Command {
    match k {
        Key::Esc => if s.query_empty {
            Command::CancelLoader
        } else {
            Command::ClearSearch
        },
        Key::Enter => if s.search_focused {
            Command::EndSearch
        } else {
            Command::LoadSelected
        },
        Key::Up => Command::LoaderUp,
        Key::Down => if s.search_focused {
            Command::EndSearch
        } else {
            Command::LoaderDown
        },
        Key::Backspace => Command::SearchBackspace,
        Key::Char(c) => {
            if s.search_focused {
                Command::SearchType(c)
            } else if c == '/' {
                Command::FocusSearch
            } else if c == 'd' {
                Command::Filter(ThemeFilter::Builtin)
            } else if c == 's' {
                Command::Filter(ThemeFilter::Saved)
            } else if c == 'r' {
                Command::BeginRename
            } else if c == 'x' {
                Command::BeginDelete
            } else {
                Command::SearchType(c)
            }
        },
        _ => Command::Nothing,
    }
}

/// What a key does in `mode`.
pub open spec fn command_spec(mode: InputMode, k: KeyPress, loader: LoaderKeys, picker: PickerKeys) -> Command {
    match mode {
        InputMode::Preview => preview_command(k.key),
        InputMode::ColorPicker => picker_command(k, picker),
        InputMode::FieldSearch => match k.key {
            Key::Esc => Command::FinderCancel,
            Key::Enter => Command::FinderCommit,
            Key::Up => Command::FinderMove(-1i32),
            Key::Down => Command::FinderMove(1i32),
            Key::Backspace => Command::FinderBackspace,
            Key::Char(c) => Command::FinderType(c),
            _ => Command::Nothing,
        },
        InputMode::ThemeNameInput => match k.key {
            Key::Enter => Command::SaveAs,
            Key::Esc => Command::LeaveNamePrompt,
            Key::Backspace => Command::NameBackspace,
            Key::Char(c) => Command::NameType(c),
            _ => Command::Nothing,
        },
        InputMode::ApplyConfirm => match k.key {
            Key::Char(c) => if c == 'y' || c == 'Y' {
                Command::ConfirmApply
            } else if c == 'n' || c == 'N' {
                Command::CancelApply
            } else {
                Command::Nothing
            },
            Key::Esc => Command::CancelApply,
            _ => Command::Nothing,
        },
        InputMode::ThemeLoad => loader_command(k.key, loader),
        InputMode::ThemeLoadRename => match k.key {
            Key::Enter => Command::CommitRename,
            Key::Esc => Command::BackToLoader,
            Key::Backspace => Command::NameBackspace,
            Key::Char(c) => Command::NameType(c),
            _ => Command::Nothing,
        },
        InputMode::ThemeLoadDeleteConfirm => match k.key {
            Key::Char(c) => if c == 'y' || c == 'Y' {
                Command::ConfirmDelete
            } else if c == 'n' || c == 'N' {
                Command::BackToLoader
            } else {
                Command::Nothing
            },
            Key::Esc => Command::BackToLoader,
            _ => Command::Nothing,
        },
        InputMode::UpdateRestartConfirm => match k.key {
            Key::Enter => Command::Restart,
            Key::Char(c) => if c == 'L' || c == 'l' {
                Command::DeferRestart
            } else {
                Command::Nothing
            },
            Key::Esc => Command::DeferRestart,
            _ => Command::Nothing,
        },
        InputMode::Help => match k.key {
            Key::Esc => Command::CloseHelp,
            Key::Char(c) => if c == '?' || c == 'q' {
                Command::CloseHelp
            } else if c == 'k' {
                Command::HelpUp(1u16)
            } else if c == 'j' {
                Command::HelpDown(1u16)
            } else {
                Command::Nothing
            },
            Key::Up => Command::HelpUp(1u16),
            Key::Down => Command::HelpDown(1u16),
            Key::PageUp => Command::HelpUp(10u16),
            Key::PageDown => Command::HelpDown(10u16),
            Key::Home => Command::HelpTop,
            Key::End => Command::HelpBottom,
            _ => Command::Nothing,
        },
    }
}

fn preview_key(k: Key) -> (cmd: Command)
    ensures
        cmd == preview_command(k),
{
    match k {
        Key::Char(c) => {
            if '1' <= c && c <= '6' {
                Command::SelectGroup((c as u32 - '1' as u32) as usize)
            } else if c == 'q' {
                Command::Quit
            } else if c == 'k' {
                Command::PrevField
            } else if c == 'j' {
                Command::NextField
            } else if c == '/' {
                Command::OpenFinder
            } else if c == 'c' {
                Command::OpenPicker
            } else if c == 'y' {
                Command::Yank
            } else if c == 'p' {
                Command::Paste
            } else if c == 'u' {
                Command::Undo
            } else if c == 's' {
                Command::OpenNamePrompt
            } else if c == 'l' {
                Command::OpenLoader
            } else if c == 'a' {
                Command::BeginApply
            } else if c == 'U' {
                Command::SelfUpdate
            } else if c == '?' {
                Command::OpenHelp
            } else {
                Command::Nothing
            }
        },
        Key::Esc => Command::Quit,
        Key::Left | Key::BackTab => Command::PrevGroup,
        Key::Right | Key::Tab => Command::NextGroup,
        Key::Up => Command::PrevField,
        Key::Down => Command::NextField,
        Key::Enter => Command::OpenPicker,
        _ => Command::Nothing,
    }
}

fn picker_key(k: KeyPress, p: PickerKeys) -> (cmd: Command)
    ensures
        cmd == picker_command(k, p),
{
    if p.hex_editing {
        match k.key {
            Key::Enter => Command::HexCommit,
            Key::Esc => Command::HexCancel,
            Key::Backspace => Command::HexBackspace,
            Key::Char(c) => Command::HexType(c),
            _ => Command::Nothing,
        }
    } else {
        let step: i16 = if k.shift {
            32
        } else if k.alt {
            1
        } else {
            8
        };
        let up = if p.hsl {
            Command::HslNudge(step)
        } else {
            Command::Nudge(step)
        };
        let down = if p.hsl {
            Command::HslNudge(0 - step)
        } else {
            Command::Nudge(0 - step)
        };
        match k.key {
            Key::Up | Key::Right => up,
            Key::Down | Key::Left => down,
            Key::Tab => Command::FocusNext,
            Key::BackTab => Command::FocusPrev,
            Key::Char(c) => if c == '#' {
                Command::HexBegin
            } else if c == 'm' {
                Command::ToggleMode
            } else {
                Command::Nothing
            },
            Key::Enter => if p.focus == Control::Hex {
                Command::HexBegin
            } else {
                Command::KeepColor
            },
            Key::Esc => Command::CancelColor,
            _ => Command::Nothing,
        }
    }
}

fn loader_key(k: Key, s: LoaderKeys) -> (cmd: Command)
    ensures
        cmd == loader_command(k, s),
{
    match k {
        Key::Esc => if s.query_empty {
            Command::CancelLoader
        } else {
            Command::ClearSearch
        },
        Key::Enter => if s.search_focused {
            Command::EndSearch
        } else {
            Command::LoadSelected
        },
        Key::Up => Command::LoaderUp,
        Key::Down => if s.search_focused {
            Command::EndSearch
        } else {
            Command::LoaderDown
        },
        Key::Backspace => Command::SearchBackspace,
        Key::Char(c) => {
            if s.search_focused {
                Command::SearchType(c)
            } else if c == '/' {
                Command::FocusSearch
            } else if c == 'd' {
                Command::Filter(ThemeFilter::Builtin)
            } else if c == 's' {
                Command::Filter(ThemeFilter::Saved)
            } else if c == 'r' {
                Command::BeginRename
            } else if c == 'x' {
                Command::BeginDelete
            } else {
                Command::SearchType(c)
            }
        },
        _ => Command::Nothing,
    }
}

/// What a key press does in `mode`; `loader` says how the loader's search
/// stands and `picker` how the color picker stands.
pub fn command_for(mode: InputMode, k: KeyPress, loader: LoaderKeys, picker: PickerKeys) -> (cmd: Command)
    ensures
        cmd == command_spec(mode, k, loader, picker),
{
    match mode {
        InputMode::Preview => preview_key(k.key),
        InputMode::ColorPicker => picker_key(k, picker),
        InputMode::FieldSearch => match k.key {
            Key::Esc => Command::FinderCancel,
            Key::Enter => Command::FinderCommit,
            Key::Up => Command::FinderMove(-1i32),
            Key::Down => Command::FinderMove(1i32),
            Key::Backspace => Command::FinderBackspace,
            Key::Char(c) => Command::FinderType(c),
            _ => Command::Nothing,
        },
        InputMode::ThemeNameInput => match k.key {
            Key::Enter => Command::SaveAs,
            Key::Esc => Command::LeaveNamePrompt,
            Key::Backspace => Command::NameBackspace,
            Key::Char(c) => Command::NameType(c),
            _ => Command::Nothing,
        },
        InputMode::ApplyConfirm => match k.key {
            Key::Char(c) => if c == 'y' || c == 'Y' {
                Command::ConfirmApply
            } else if c == 'n' || c == 'N' {
                Command::CancelApply
            } else {
                Command::Nothing
            },
            Key::Esc => Command::CancelApply,
            _ => Command::Nothing,
        },
        InputMode::ThemeLoad => loader_key(k.key, loader),
        InputMode::ThemeLoadRename => match k.key {
            Key::Enter => Command::CommitRename,
            Key::Esc => Command::BackToLoader,
            Key::Backspace => Command::NameBackspace,
            Key::Char(c) => Command::NameType(c),
            _ => Command::Nothing,
        },
        InputMode::ThemeLoadDeleteConfirm => match k.key {
            Key::Char(c) => if c == 'y' || c == 'Y' {
                Command::ConfirmDelete
            } else if c == 'n' || c == 'N' {
                Command::BackToLoader
            } else {
                Command::Nothing
            },
            Key::Esc => Command::BackToLoader,
            _ => Command::Nothing,
        },
        InputMode::UpdateRestartConfirm => match k.key {
            Key::Enter => Command::Restart,
            Key::Char(c) => if c == 'L' || c == 'l' {
                Command::DeferRestart
            } else {
                Command::Nothing
            },
            Key::Esc => Command::DeferRestart,
            _ => Command::Nothing,
        },
        InputMode::Help => match k.key {
            Key::Esc => Command::CloseHelp,
            Key::Char(c) => if c == '?' || c == 'q' {
                Command::CloseHelp
            } else if c == 'k' {
                Command::HelpUp(1u16)
            } else if c == 'j' {
                Command::HelpDown(1u16)
            } else {
                Command::Nothing
            },
            Key::Up => Command::HelpUp(1u16),
            Key::Down => Command::HelpDown(1u16),
            Key::PageUp => Command::HelpUp(10u16),
            Key::PageDown => Command::HelpDown(10u16),
            Key::Home => Command::HelpTop,
            Key::End => Command::HelpBottom,
            _ => Command::Nothing,
        },
    }
}

// ── Laws of the key bindings ─────────────────────────────────────────────────

/// In the field finder, ↓ moves the highlight to the next match and ↑ back:
/// for any modifiers and any loader or picker state, ↓ asks for a move of
/// +1 and ↑ of -1, so with `n` matches ↓ takes the highlight from `i` to the
/// one after it (wrapping after the last), and ↑ then brings it back.
pub proof fn lemma_finder_arrows(down: KeyPress, up: KeyPress, loader: LoaderKeys, picker: PickerKeys, n: int, i: int)
    requires
        down.key == Key::Down,
        up.key == Key::Up,
        0 <= i < n,
    ensures
        command_spec(InputMode::FieldSearch, down, loader, picker) matches Command::FinderMove(d) && {
            &&& d == 1
            &&& finder_moved(n, i, d as int) == (if i + 1 < n { i + 1 } else { 0 })
            &&& command_spec(InputMode::FieldSearch, up, loader, picker) matches Command::FinderMove(e)
                && finder_moved(n, finder_moved(n, i, d as int), e as int) == i
        },
{
    if i + 1 < n {
        vstd::arithmetic::div_mod::lemma_small_mod((i + 1) as nat, n as nat);
        vstd::arithmetic::div_mod::lemma_small_mod(i as nat, n as nat);
    } else {
        vstd::arithmetic::div_mod::lemma_mod_self_0(n);
        vstd::arithmetic::div_mod::lemma_mod_add_multiples_vanish(-1, n);
        vstd::arithmetic::div_mod::lemma_small_mod((n - 1) as nat, n as nat);
    }
}

/// In both name prompts (saving, renaming), typing edits the name: every
/// character is typed into it and Backspace deletes its last character;
/// Enter saves (or renames) and Esc leaves the prompt (back to the loader
/// when renaming), whatever the modifiers and the loader or picker state.
pub proof fn lemma_name_prompt_keys(k: KeyPress, loader: LoaderKeys, picker: PickerKeys, mode: InputMode)
    requires
        mode == InputMode::ThemeNameInput || mode == InputMode::ThemeLoadRename,
    ensures
        k.key == Key::Backspace ==> command_spec(mode, k, loader, picker) == Command::NameBackspace,
        k.key matches Key::Char(c) ==> command_spec(mode, k, loader, picker) == Command::NameType(c),
        k.key == Key::Enter ==> command_spec(mode, k, loader, picker) == if mode == InputMode::ThemeNameInput {
            Command::SaveAs
        } else {
            Command::CommitRename
        },
        k.key == Key::Esc ==> command_spec(mode, k, loader, picker) == if mode == InputMode::ThemeNameInput {
            Command::LeaveNamePrompt
        } else {
            Command::BackToLoader
        },
{
}

/// In the field finder, typing edits the query (every character is typed
/// into it, Backspace deletes the last one), Enter selects the highlighted
/// field and Esc closes the finder, whatever the modifiers and the loader or
/// picker state.
pub proof fn lemma_finder_keys(k: KeyPress, loader: LoaderKeys, picker: PickerKeys)
    ensures
        k.key == Key::Backspace ==> command_spec(InputMode::FieldSearch, k, loader, picker)
            == Command::FinderBackspace,
        k.key matches Key::Char(c) ==> command_spec(InputMode::FieldSearch, k, loader, picker)
            == Command::FinderType(c),
        k.key == Key::Enter ==> command_spec(InputMode::FieldSearch, k, loader, picker) == Command::FinderCommit,
        k.key == Key::Esc ==> command_spec(InputMode::FieldSearch, k, loader, picker) == Command::FinderCancel,
{
}

/// The editor's own keys, as its key table lists them, for any modifiers
/// and any loader or picker state: `1`–`6` jump to the group of that number,
/// ←/Shift+Tab and →/Tab step to the previous and next group, ↑/`k` and
/// ↓/`j` to the previous and next field; `/` finds a field, `c` and Enter
/// open the picker, `y` yanks, `p` pastes, `u` undoes, `s` saves, `l` loads,
/// `a` asks to apply, `U` updates, `?` opens the help, `q` and Esc quit.
pub proof fn lemma_preview_keys(k: KeyPress, loader: LoaderKeys, picker: PickerKeys)
    ensures
        ({
            let cmd = command_spec(InputMode::Preview, k, loader, picker);
            &&& (k.key matches Key::Char(c) && '1' <= c <= '6') ==> cmd == Command::SelectGroup(
                ((k.key->Char_0 as int) - ('1' as int)) as usize,
            )
            &&& (k.key == Key::Left || k.key == Key::BackTab) ==> cmd == Command::PrevGroup
            &&& (k.key == Key::Right || k.key == Key::Tab) ==> cmd == Command::NextGroup
            &&& (k.key == Key::Up || k.key == Key::Char('k')) ==> cmd == Command::PrevField
            &&& (k.key == Key::Down || k.key == Key::Char('j')) ==> cmd == Command::NextField
            &&& k.key == Key::Char('/') ==> cmd == Command::OpenFinder
            &&& (k.key == Key::Char('c') || k.key == Key::Enter) ==> cmd == Command::OpenPicker
            &&& k.key == Key::Char('y') ==> cmd == Command::Yank
            &&& k.key == Key::Char('p') ==> cmd == Command::Paste
            &&& k.key == Key::Char('u') ==> cmd == Command::Undo
            &&& k.key == Key::Char('s') ==> cmd == Command::OpenNamePrompt
            &&& k.key == Key::Char('l') ==> cmd == Command::OpenLoader
            &&& k.key == Key::Char('a') ==> cmd == Command::BeginApply
            &&& k.key == Key::Char('U') ==> cmd == Command::SelfUpdate
            &&& k.key == Key::Char('?') ==> cmd == Command::OpenHelp
            &&& (k.key == Key::Char('q') || k.key == Key::Esc) ==> cmd == Command::Quit
        }),
{
}

/// The picker's keys, for any loader state. While a hex line is typed, every
/// character goes into it, Backspace deletes, Enter commits and Esc drops
/// it. Otherwise ↑/→ and ↓/← nudge the focused control by the same step in
/// opposite directions (on the HSL field in HSL mode), the step being 32
/// with Shift, 1 with Alt and 8 without; Tab and Shift+Tab move the focus,
/// `m` switches RGB and HSL, `#` starts hex entry, Enter edits the hex field
/// when it has the focus and keeps the color otherwise, and Esc cancels.
pub proof fn lemma_picker_keys(k: KeyPress, loader: LoaderKeys, picker: PickerKeys)
    ensures
        ({
            let cmd = command_spec(InputMode::ColorPicker, k, loader, picker);
            let step: int = if k.shift {
                32
            } else if k.alt {
                1
            } else {
                8
            };
            &&& picker.hex_editing ==> {
                &&& (k.key matches Key::Char(c) ==> cmd == Command::HexType(c))
                &&& k.key == Key::Backspace ==> cmd == Command::HexBackspace
                &&& k.key == Key::Enter ==> cmd == Command::HexCommit
                &&& k.key == Key::Esc ==> cmd == Command::HexCancel
            }
            &&& !picker.hex_editing ==> {
                &&& (k.key == Key::Up || k.key == Key::Right) ==> if picker.hsl {
                    cmd matches Command::HslNudge(d) && d == step
                } else {
                    cmd matches Command::Nudge(d) && d == step
                }
                &&& (k.key == Key::Down || k.key == Key::Left) ==> if picker.hsl {
                    cmd matches Command::HslNudge(d) && d == -step
                } else {
                    cmd matches Command::Nudge(d) && d == -step
                }
                &&& k.key == Key::Tab ==> cmd == Command::FocusNext
                &&& k.key == Key::BackTab ==> cmd == Command::FocusPrev
                &&& k.key == Key::Char('m') ==> cmd == Command::ToggleMode
                &&& k.key == Key::Char('#') ==> cmd == Command::HexBegin
                &&& k.key == Key::Enter ==> cmd == if picker.focus == Control::Hex {
                    Command::HexBegin
                } else {
                    Command::KeepColor
                }
                &&& k.key == Key::Esc ==> cmd == Command::CancelColor
            }
        }),
{
}

/// The loader's keys, for any modifiers and picker state. While the search
/// has the keys every character is typed into it. Otherwise `/` focuses the
/// search, `d` and `s` filter to built-in and saved themes, `r` and `x`
/// rename and delete, ↑ and ↓ move through the list and Enter loads; any
/// other character starts a search with it. Backspace edits the search, and
/// Esc clears a non-empty search or else closes the loader.
pub proof fn lemma_loader_keys(k: KeyPress, loader: LoaderKeys, picker: PickerKeys)
    ensures
        ({
            let cmd = command_spec(InputMode::ThemeLoad, k, loader, picker);
            &&& loader.search_focused ==> (k.key matches Key::Char(c) ==> cmd == Command::SearchType(c))
            &&& !loader.search_focused ==> {
                &&& k.key == Key::Char('/') ==> cmd == Command::FocusSearch
                &&& k.key == Key::Char('d') ==> cmd == Command::Filter(ThemeFilter::Builtin)
                &&& k.key == Key::Char('s') ==> cmd == Command::Filter(ThemeFilter::Saved)
                &&& k.key == Key::Char('r') ==> cmd == Command::BeginRename
                &&& k.key == Key::Char('x') ==> cmd == Command::BeginDelete
                &&& k.key == Key::Up ==> cmd == Command::LoaderUp
                &&& k.key == Key::Down ==> cmd == Command::LoaderDown
                &&& k.key == Key::Enter ==> cmd == Command::LoadSelected
                &&& (k.key matches Key::Char(c) && c != '/' && c != 'd' && c != 's' && c != 'r' && c != 'x')
                    ==> cmd == Command::SearchType(k.key->Char_0)
            }
            &&& k.key == Key::Backspace ==> cmd == Command::SearchBackspace
            &&& k.key == Key::Esc ==> cmd == if loader.query_empty {
                Command::CancelLoader
            } else {
                Command::ClearSearch
            }
        }),
{
}

/// The confirmations, for any modifiers and any loader or picker state:
/// `y` or `Y` confirms applying or deleting, `n`, `N` and Esc decline (a
/// declined delete goes back to the loader), and no other key answers. After
/// an update, Enter restarts while `l`, `L` and Esc leave the restart for
/// later.
pub proof fn lemma_confirmation_keys(k: KeyPress, loader: LoaderKeys, picker: PickerKeys)
    ensures
        ({
            let apply = command_spec(InputMode::ApplyConfirm, k, loader, picker);
            let delete = command_spec(InputMode::ThemeLoadDeleteConfirm, k, loader, picker);
            let restart = command_spec(InputMode::UpdateRestartConfirm, k, loader, picker);
            let yes = k.key == Key::Char('y') || k.key == Key::Char('Y');
            let no = k.key == Key::Char('n') || k.key == Key::Char('N') || k.key == Key::Esc;
            &&& yes ==> apply == Command::ConfirmApply && delete == Command::ConfirmDelete
            &&& no ==> apply == Command::CancelApply && delete == Command::BackToLoader
            &&& !yes && !no ==> apply == Command::Nothing && delete == Command::Nothing
            &&& k.key == Key::Enter ==> restart == Command::Restart
            &&& (k.key == Key::Char('l') || k.key == Key::Char('L') || k.key == Key::Esc) ==> restart
                == Command::DeferRestart
        }),
{
}

/// The help's keys, for any modifiers and any loader or picker state: Esc,
/// `?` and `q` close it; ↑/`k` and ↓/`j` scroll by one line, PageUp and
/// PageDown by ten, Home and End to the top and the bottom.
pub proof fn lemma_help_keys(k: KeyPress, loader: LoaderKeys, picker: PickerKeys)
    ensures
        ({
            let cmd = command_spec(InputMode::Help, k, loader, picker);
            &&& (k.key == Key::Esc || k.key == Key::Char('?') || k.key == Key::Char('q')) ==> cmd
                == Command::CloseHelp
            &&& (k.key == Key::Up || k.key == Key::Char('k')) ==> cmd == Command::HelpUp(1)
            &&& (k.key == Key::Down || k.key == Key::Char('j')) ==> cmd == Command::HelpDown(1)
            &&& k.key == Key::PageUp ==> cmd == Command::HelpUp(10)
            &&& k.key == Key::PageDown ==> cmd == Command::HelpDown(10)
            &&& k.key == Key::Home ==> cmd == Command::HelpTop
            &&& k.key == Key::End ==> cmd == Command::HelpBottom
        }),
{
}

} // verus!
