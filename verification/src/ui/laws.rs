//! Properties of the editor that span several operations or hold of every
//! input: navigation that stays within a group and comes back around, undo
//! and cancel that put colors back, the shape of saved theme names, and the
//! loader's filters.
use vstd::prelude::*;
use crate::config::{theme_file_names, ConfigError};
use crate::text::{
    is_ascii_alphanumeric_spec, is_ascii_digit_spec, is_ascii_lower_spec, lowercase_seq,
    to_ascii_lowercase_spec,
};
use crate::theme::{all_fields, all_groups, PaletteField, PaletteGroup, RgbColor, Theme, ThemePalette};
use crate::ui::picker::picker_edited;
use crate::ui::keys::{command_spec, Command, Key, KeyPress, LoaderKeys, PickerKeys};
use crate::ui::state::{
    apply_begun, index_down, index_up, moved_down, moved_up, InputMode,
    color_applied, entry_visible, field_matches, loader_browsed, loader_cancelled, loader_opened, fields_matching, first_field, loader_query, next_group_of,
    next_in_group, normalized_char, normalized_chars, normalized_name, pasted, picker_closed,
    picker_opened, prev_group_of, prev_in_group, strip_leading, strip_trailing, undo_pushed, undone,
    visible_entries, App, ThemeEntry, ThemeFilter,
};

verus! {

/// `f` after `n` steps of ↓ within its group.
pub open spec fn next_in_group_times(f: PaletteField, n: nat) -> PaletteField
    decreases n,
{
    if n == 0 {
        f
    } else {
        next_in_group_times(next_in_group(f), (n - 1) as nat)
    }
}

proof fn lemma_in_group_steps()
    ensures
        next_in_group(PaletteField::Background) == PaletteField::Foreground,
        prev_in_group(PaletteField::Background) == PaletteField::Accent2,
        next_in_group(PaletteField::Foreground) == PaletteField::Accent,
        prev_in_group(PaletteField::Foreground) == PaletteField::Background,
        next_in_group(PaletteField::Accent) == PaletteField::Accent2,
        prev_in_group(PaletteField::Accent) == PaletteField::Foreground,
        next_in_group(PaletteField::Accent2) == PaletteField::Background,
        prev_in_group(PaletteField::Accent2) == PaletteField::Accent,
        next_in_group(PaletteField::ActiveBorder) == PaletteField::InactiveBorder,
        prev_in_group(PaletteField::ActiveBorder) == PaletteField::InactiveBorder,
        next_in_group(PaletteField::InactiveBorder) == PaletteField::ActiveBorder,
        prev_in_group(PaletteField::InactiveBorder) == PaletteField::ActiveBorder,
        next_in_group(PaletteField::WaybarBackground) == PaletteField::WaybarForeground,
        prev_in_group(PaletteField::WaybarBackground) == PaletteField::WaybarActiveWorkspace,
        next_in_group(PaletteField::WaybarForeground) == PaletteField::WaybarActiveWorkspace,
        prev_in_group(PaletteField::WaybarForeground) == PaletteField::WaybarBackground,
        next_in_group(PaletteField::WaybarActiveWorkspace) == PaletteField::WaybarBackground,
        prev_in_group(PaletteField::WaybarActiveWorkspace) == PaletteField::WaybarForeground,
        next_in_group(PaletteField::LauncherBackground) == PaletteField::LauncherForeground,
        prev_in_group(PaletteField::LauncherBackground) == PaletteField::LauncherSelectedForeground,
        next_in_group(PaletteField::LauncherForeground) == PaletteField::LauncherSelectedBackground,
        prev_in_group(PaletteField::LauncherForeground) == PaletteField::LauncherBackground,
        next_in_group(PaletteField::LauncherSelectedBackground) == PaletteField::LauncherSelectedForeground,
        prev_in_group(PaletteField::LauncherSelectedBackground) == PaletteField::LauncherForeground,
        next_in_group(PaletteField::LauncherSelectedForeground) == PaletteField::LauncherBackground,
        prev_in_group(PaletteField::LauncherSelectedForeground) == PaletteField::LauncherSelectedBackground,
        next_in_group(PaletteField::TerminalBackground) == PaletteField::TerminalForeground,
        prev_in_group(PaletteField::TerminalBackground) == PaletteField::TerminalForeground,
        next_in_group(PaletteField::TerminalForeground) == PaletteField::TerminalBackground,
        prev_in_group(PaletteField::TerminalForeground) == PaletteField::TerminalBackground,
        next_in_group(PaletteField::NotificationBackground) == PaletteField::NotificationBorder,
        prev_in_group(PaletteField::NotificationBackground) == PaletteField::NotificationBorder,
        next_in_group(PaletteField::NotificationBorder) == PaletteField::NotificationBackground,
        prev_in_group(PaletteField::NotificationBorder) == PaletteField::NotificationBackground,
{
    assert(PaletteGroup::Desktop.fields_spec().len() == 4);
    assert(PaletteGroup::Windows.fields_spec().len() == 2);
    assert(PaletteGroup::Waybar.fields_spec().len() == 3);
    assert(PaletteGroup::Launcher.fields_spec().len() == 4);
    assert(PaletteGroup::Terminal.fields_spec().len() == 2);
    assert(PaletteGroup::Notification.fields_spec().len() == 2);
    assert((0int + 1) % 2int == 1 && (1int + 1) % 2int == 0);
    assert((0int + 1) % 3int == 1 && (1int + 1) % 3int == 2 && (2int + 1) % 3int == 0);
    assert((0int + 1) % 4int == 1 && (1int + 1) % 4int == 2 && (2int + 1) % 4int == 3 && (3int + 1) % 4int == 0);
}

/// ↓ and ↑ never leave the field's group, undo each other, and as many ↓ as
/// the group has fields come back to the starting field.
#[verifier::spinoff_prover]
#[verifier::rlimit(40)]
pub proof fn lemma_field_navigation_cycles(f: PaletteField)
    ensures
        next_in_group(f).group_spec() == f.group_spec(),
        prev_in_group(f).group_spec() == f.group_spec(),
        prev_in_group(next_in_group(f)) == f,
        next_in_group(prev_in_group(f)) == f,
        next_in_group_times(f, f.group_spec().fields_spec().len()) == f,
{
    reveal_with_fuel(next_in_group_times, 5);
    lemma_in_group_steps();
}

/// Next and previous group undo each other, six steps come back around, and
/// a group's first field belongs to it.
pub proof fn lemma_group_navigation(g: PaletteGroup)
    ensures
        prev_group_of(next_group_of(g)) == g,
        next_group_of(prev_group_of(g)) == g,
        first_field(g).group_spec() == g,
        next_group_of(next_group_of(next_group_of(next_group_of(next_group_of(next_group_of(g))))))
            == g,
{
}

/// Pasting and then undoing puts the palette and the selection back as they
/// were; the undo stack too, unless the paste pushed its oldest entry out.
pub proof fn lemma_paste_then_undo(s0: App, s1: App, s2: App)
    requires
        s0.clipboard_color is Some,
        pasted(s0, s1),
        undone(s1, s2),
    ensures
        s2.theme.palette == s0.theme.palette,
        s2.selected == s0.selected,
        s0.undo_stack@.len() < 64 ==> s2.undo_stack@ == s0.undo_stack@,
{
    let f = s0.selected;
    let before = f.value_in(s0.theme.palette);
    crate::theme::lemma_field_write_then_read(f, s0.theme.palette, s0.clipboard_color->0);
    assert(s1.undo_stack@.last() == (f, before));
    assert(s2.theme.palette == f.set_in(f.set_in(s0.theme.palette, s0.clipboard_color->0), before));
    assert(f.set_in(f.set_in(s0.theme.palette, s0.clipboard_color->0), before) == s0.theme.palette);
    if s0.undo_stack@.len() < 64 {
        assert(s2.undo_stack@ =~= s0.undo_stack@);
    }
}

/// Writing a field twice keeps only the second color.
proof fn lemma_field_write_twice(f: PaletteField, p: ThemePalette, a: RgbColor, b: RgbColor)
    ensures
        f.set_in(f.set_in(p, a), b) == f.set_in(p, b),
{
}

/// While the picker is open and being edited, it still remembers the color
/// the field had, and the palette differs from the one it opened on only in
/// the selected field.
proof fn lemma_picker_edits_keep(s0: App, states: Seq<App>, k: int)
    requires
        0 <= k < states.len(),
        picker_opened(s0, states[0]),
        forall|j: int| 0 <= j < states.len() - 1 ==> picker_edited(#[trigger] states[j], states[j + 1]),
    ensures
        states[k].selected == s0.selected,
        states[k].original_color == Some(s0.selected.value_in(s0.theme.palette)),
        states[k].undo_stack == s0.undo_stack,
        states[k].input_mode == InputMode::ColorPicker,
        states[k].theme.palette == s0.selected.set_in(
            s0.theme.palette,
            s0.selected.value_in(states[k].theme.palette),
        ),
    decreases k,
{
    let f = s0.selected;
    if k == 0 {
        crate::theme::lemma_field_write_same(f, s0.theme.palette);
    } else {
        lemma_picker_edits_keep(s0, states, k - 1);
        assert(picker_edited(states[k - 1], states[k]));
        let p = states[k - 1].theme.palette;
        if exists|c: RgbColor| #[trigger] color_applied(states[k - 1], states[k], c) {
            let c = choose|c: RgbColor| #[trigger] color_applied(states[k - 1], states[k], c);
            lemma_field_write_twice(f, s0.theme.palette, f.value_in(p), c);
            crate::theme::lemma_field_write_then_read(f, p, c);
            crate::theme::lemma_field_write_then_read(f, s0.theme.palette, c);
        }
    }
}

/// Opening the picker, trying any number of colors and cancelling leaves
/// the palette and the undo history as they were and returns to the preview.
pub proof fn lemma_cancelled_picker_restores(s0: App, states: Seq<App>, s_end: App)
    requires
        states.len() >= 1,
        picker_opened(s0, states[0]),
        forall|j: int| 0 <= j < states.len() - 1 ==> picker_edited(#[trigger] states[j], states[j + 1]),
        picker_closed(states.last(), s_end, false),
    ensures
        s_end.theme.palette == s0.theme.palette,
        s_end.selected == s0.selected,
        s_end.undo_stack == s0.undo_stack,
        s_end.original_color is None,
        s_end.input_mode == InputMode::Preview,
{
    let f = s0.selected;
    let last = states.last();
    lemma_picker_edits_keep(s0, states, states.len() - 1);
    lemma_field_write_twice(f, s0.theme.palette, f.value_in(last.theme.palette), f.value_in(s0.theme.palette));
    crate::theme::lemma_field_write_same(f, s0.theme.palette);
}

/// Keeping a changed color in the picker records it, so one undo takes the
/// field back to the color it had before the picker opened.
pub proof fn lemma_kept_picker_change_undoes(s0: App, s1: App, s2: App, s3: App, s4: App, c: RgbColor)
    requires
        picker_opened(s0, s1),
        color_applied(s1, s2, c),
        picker_closed(s2, s3, true),
        undone(s3, s4),
        c != s0.selected.value_in(s0.theme.palette),
    ensures
        s4.theme.palette == s0.theme.palette,
        s4.selected == s0.selected,
{
    let f = s0.selected;
    let o = f.value_in(s0.theme.palette);
    crate::theme::lemma_field_write_then_read(f, s0.theme.palette, c);
    assert(s3.undo_stack@.last() == (f, o));
    assert(s4.theme.palette == f.set_in(f.set_in(s0.theme.palette, c), o));
}

/// Every operation that records an undo entry (pasting, keeping a picker
/// change) keeps the stack within 64 entries, dropping the oldest first.
pub proof fn lemma_undo_recording_keeps_bound(s0: App, s1: App, s2: App, save: bool)
    requires
        s0.undo_stack@.len() <= 64,
        pasted(s0, s1) || picker_closed(s0, s1, save),
    ensures
        s1.undo_stack@.len() <= 64,
        s1.undo_stack@ == s0.undo_stack@ || exists|e: (PaletteField, RgbColor)|
            #[trigger] undo_pushed(s0.undo_stack@, e) == s1.undo_stack@ && s1.undo_stack@ == (if s0.undo_stack@.len() == 64 {
                s0.undo_stack@.drop_first().push(e)
            } else {
                s0.undo_stack@.push(e)
            }),
{
    if s1.undo_stack@ != s0.undo_stack@ {
        let f = s0.selected;
        let e: (PaletteField, RgbColor) = if pasted(s0, s1) {
            (f, f.value_in(s0.theme.palette))
        } else {
            (f, s0.original_color->0)
        };
        lemma_undo_stack_bounded(s0.undo_stack@, e);
        assert(undo_pushed(s0.undo_stack@, e) == s1.undo_stack@);
    }
}

/// The undo stack never holds more than 64 entries: recording onto a full
/// stack drops its oldest entry, otherwise nothing is dropped, and the entry
/// just recorded is the one undone next.
pub proof fn lemma_undo_stack_bounded(stack: Seq<(PaletteField, RgbColor)>, e: (PaletteField, RgbColor))
    requires
        stack.len() <= 64,
    ensures
        undo_pushed(stack, e).len() <= 64,
        undo_pushed(stack, e).last() == e,
        undo_pushed(stack, e) == (if stack.len() == 64 {
            stack.drop_first().push(e)
        } else {
            stack.push(e)
        }),
{
    if stack.len() == 64 {
        assert(stack.push(e).drop_first() =~= stack.drop_first().push(e));
    }
}

// ── Saving ───────────────────────────────────────────────────────────────────

/// Saving stays inside the theme's own directory: a name taken from the
/// prompt makes a directory name with no `/` or `.` (so neither a path nor
/// `.`/`..`), and every file written in it has a plain name (no `/`, and
/// longer than `..`).
pub proof fn lemma_saving_stays_in_theme_dir(typed: Seq<char>, t: Theme)
    requires
        t.name@ == normalized_name(typed),
    ensures
        forall|i: int| 0 <= i < t.name@.len() ==> #[trigger] t.name@[i] != '/' && t.name@[i] != '.',
        forall|k: int, i: int|
            0 <= k < theme_file_names().len() && 0 <= i < theme_file_names()[k].len()
                ==> #[trigger] theme_file_names()[k][i] != '/',
        forall|k: int| 0 <= k < theme_file_names().len() ==> #[trigger] theme_file_names()[k].len() > 2,
{
    lemma_normalized_name_canonical(typed);
    assert forall|i: int| 0 <= i < t.name@.len() implies #[trigger] t.name@[i] != '/' && t.name@[i] != '.' by {
        assert(is_slug_char(normalized_name(typed)[i]));
    }
    reveal_strlit("colors.toml");
    reveal_strlit("hyprland.conf");
    reveal_strlit("hyprlock.conf");
    reveal_strlit("waybar.css");
    reveal_strlit("walker.css");
    reveal_strlit("ghostty.conf");
    reveal_strlit("README.md");
}

// ── Applying ─────────────────────────────────────────────────────────────────

/// The studio never applies a theme on its own: the only key press that
/// applies is `y` (or `Y`) at the apply prompt, and asking to apply opens
/// that prompt only when an apply command is available and the theme has a
/// usable name.
pub proof fn lemma_apply_needs_confirmation(
    mode: InputMode,
    k: KeyPress,
    loader: LoaderKeys,
    picker: PickerKeys,
    s0: App,
    s1: App,
)
    requires
        apply_begun(s0, s1),
    ensures
        command_spec(mode, k, loader, picker) == Command::ConfirmApply <==> (mode
            == InputMode::ApplyConfirm && (k.key == Key::Char('y') || k.key == Key::Char('Y'))),
        s1.input_mode == InputMode::ApplyConfirm && s0.input_mode != InputMode::ApplyConfirm
            ==> s0.apply_available && normalized_name(s0.theme.name@).len() > 0,
{
}

// ── Theme loader ─────────────────────────────────────────────────────────────

/// Browsing keeps the theme the loader remembered when it opened.
proof fn lemma_browsing_remembers(s0: App, states: Seq<App>, k: int)
    requires
        0 <= k < states.len(),
        loader_opened(s0, states[0]),
        forall|j: int| 0 <= j < states.len() - 1 ==> loader_browsed(#[trigger] states[j], states[j + 1]),
    ensures
        states[k].original_theme == Some(s0.theme),
    decreases k,
{
    if k > 0 {
        lemma_browsing_remembers(s0, states, k - 1);
        assert(loader_browsed(states[k - 1], states[k]));
    }
}

/// Browsing the loader, however long, and then cancelling puts back the
/// theme that was being edited when the loader opened, and returns to the
/// preview with the search cleared.
pub proof fn lemma_cancelled_loader_restores(s0: App, states: Seq<App>, s_end: App)
    requires
        states.len() >= 1,
        loader_opened(s0, states[0]),
        forall|k: int| 0 <= k < states.len() - 1 ==> loader_browsed(#[trigger] states[k], states[k + 1]),
        loader_cancelled(states.last(), s_end),
    ensures
        s_end.theme == s0.theme,
        s_end.theme_name_input@ == s0.theme.name@,
        s_end.original_theme is None,
        s_end.input_mode == InputMode::Preview,
        s_end.theme_search_query@.len() == 0,
        !s_end.search_focused,
        s_end.message is None,
{
    lemma_browsing_remembers(s0, states, states.len() - 1);
}

/// Moving the loader's highlight down and then up comes back to the same
/// entry (and up then down likewise); both moves wrap around the ends, keep
/// the highlight inside a non-empty list, and go to 0 in an empty one.
proof fn lemma_index_steps(n: int, i: int)
    requires
        0 <= i < n,
    ensures
        i + 1 < n ==> (i + 1) % n == i + 1,
        i + 1 == n ==> (i + 1) % n == 0,
        i > 0 ==> i % n == i,
        0 <= index_down(n, i) < n,
        index_up(n, index_down(n, i)) == i,
        index_down(n, index_up(n, i)) == i,
{
    if i + 1 < n {
        vstd::arithmetic::div_mod::lemma_small_mod((i + 1) as nat, n as nat);
    } else {
        vstd::arithmetic::div_mod::lemma_mod_self_0(n);
    }
    vstd::arithmetic::div_mod::lemma_small_mod(i as nat, n as nat);
    if i == 0 {
        vstd::arithmetic::div_mod::lemma_mod_self_0(n);
        assert(n - 1 + 1 == n);
    }
}

pub proof fn lemma_loader_down_then_up(s0: App, s1: App, s2: App)
    requires
        s0.selected_theme_index < s0.loadable_themes@.len(),
        moved_down(s0, s1),
        moved_up(s1, s2),
    ensures
        s2.selected_theme_index == s0.selected_theme_index,
        s1.selected_theme_index < s1.loadable_themes@.len(),
        s1.loadable_themes == s0.loadable_themes,
        s2.loadable_themes == s0.loadable_themes,
        forall|n: int| n > 0 ==> #[trigger] index_down(n, n - 1) == 0 && index_up(n, 0) == n - 1,
        forall|n: int, i: int| 0 <= i < n ==> 0 <= #[trigger] index_down(n, i) < n && 0 <= index_up(n, i) < n,
        forall|n: int, i: int| 0 <= i < n ==> #[trigger] index_up(n, index_down(n, i)) == i && index_down(n, index_up(n, i)) == i,
        forall|i: int| #[trigger] index_down(0, i) == 0 && index_up(0, i) == 0,
{
    assert forall|n: int, i: int| 0 <= i < n implies #[trigger] index_up(n, index_down(n, i)) == i && index_down(n, index_up(n, i)) == i by {
        lemma_index_steps(n, i);
    }
    assert forall|n: int, i: int| 0 <= i < n implies 0 <= #[trigger] index_down(n, i) < n && 0 <= index_up(n, i) < n by {
        lemma_index_steps(n, i);
    }
    assert forall|n: int| n > 0 implies #[trigger] index_down(n, n - 1) == 0 && index_up(n, 0) == n - 1 by {
        lemma_index_steps(n, n - 1);
    }
    let n = s0.loadable_themes@.len() as int;
    let i = s0.selected_theme_index as int;
    lemma_index_steps(n, i);
    let j = index_down(n, i);
    assert(n <= usize::MAX) by {
        assert(s0.loadable_themes@.len() == s0.loadable_themes.len());
    }
    assert(s1.selected_theme_index as int == j);
    assert(s1.loadable_themes == s0.loadable_themes);
    assert(s2.selected_theme_index as int == index_up(n, j));
}

// ── Theme names ──────────────────────────────────────────────────────────────

/// A character that can appear in a saved theme's directory name.
pub open spec fn is_slug_char(c: char) -> bool {
    is_ascii_digit_spec(c) || is_ascii_lower_spec(c) || c == '-' || c == '_'
}

proof fn lemma_normalized_chars_are_slug(s: Seq<char>)
    ensures
        forall|i: int| 0 <= i < normalized_chars(s).len() ==> is_slug_char(#[trigger] normalized_chars(s)[i]),
    decreases s.len(),
{
    if s.len() > 0 {
        lemma_normalized_chars_are_slug(s.drop_last());
        let rest = normalized_chars(s.drop_last());
        let n = normalized_chars(s);
        match normalized_char(s.last()) {
            Some(c) => {
                assert(is_slug_char(c));
                assert forall|i: int| 0 <= i < n.len() implies is_slug_char(#[trigger] n[i]) by {
                    if i < rest.len() {
                        assert(n[i] == rest[i]);
                    }
                }
            },
            None => {},
        }
    }
}

proof fn lemma_slug_chars_normalize_to_themselves(t: Seq<char>)
    requires
        forall|i: int| 0 <= i < t.len() ==> is_slug_char(#[trigger] t[i]),
    ensures
        normalized_chars(t) == t,
    decreases t.len(),
{
    if t.len() > 0 {
        lemma_slug_chars_normalize_to_themselves(t.drop_last());
        assert(normalized_char(t.last()) == Some(t.last()));
        assert(t.drop_last().push(t.last()) =~= t);
    }
}

proof fn lemma_strip_leading_shape(x: Seq<char>, c: char) -> (k: int)
    ensures
        0 <= k <= x.len(),
        strip_leading(x, c) == x.skip(k),
        k < x.len() ==> x[k] != c,
        forall|i: int| 0 <= i < k ==> #[trigger] x[i] == c,
    decreases x.len(),
{
    if x.len() > 0 && x[0] == c {
        let k = lemma_strip_leading_shape(x.drop_first(), c);
        assert(x.drop_first().skip(k) =~= x.skip(k + 1));
        assert forall|i: int| 0 <= i < k + 1 implies #[trigger] x[i] == c by {
            if i > 0 {
                assert(x[i] == x.drop_first()[i - 1]);
            }
        }
        k + 1
    } else {
        assert(x.skip(0) =~= x);
        0
    }
}

proof fn lemma_strip_trailing_shape(x: Seq<char>, c: char) -> (j: int)
    ensures
        0 <= j <= x.len(),
        strip_trailing(x, c) == x.take(j),
        j > 0 ==> x[j - 1] != c,
        forall|i: int| j <= i < x.len() ==> #[trigger] x[i] == c,
    decreases x.len(),
{
    if x.len() > 0 && x.last() == c {
        let j = lemma_strip_trailing_shape(x.drop_last(), c);
        assert(x.drop_last().take(j) =~= x.take(j));
        assert forall|i: int| j <= i < x.len() implies #[trigger] x[i] == c by {
            if i < x.len() - 1 {
                assert(x[i] == x.drop_last()[i]);
            }
        }
        j
    } else {
        assert(x.take(x.len() as int) =~= x);
        x.len() as int
    }
}

/// A character that survives in a saved name as itself (lowercased): an
/// ASCII letter, a digit or `_`.
pub open spec fn is_word_char(c: char) -> bool {
    is_ascii_alphanumeric_spec(c) || c == '_'
}

/// The normalized characters hold something other than `-` exactly when
/// the text holds a letter, digit or `_`.
proof fn lemma_normalized_chars_words(s: Seq<char>)
    ensures
        (exists|i: int| 0 <= i < normalized_chars(s).len() && #[trigger] normalized_chars(s)[i] != '-')
            <==> (exists|i: int| 0 <= i < s.len() && is_word_char(#[trigger] s[i])),
    decreases s.len(),
{
    if s.len() > 0 {
        let init = s.drop_last();
        lemma_normalized_chars_words(init);
        let rest = normalized_chars(init);
        let n = normalized_chars(s);
        let x = s.last();
        if exists|i: int| 0 <= i < init.len() && is_word_char(#[trigger] init[i]) {
            let i = choose|i: int| 0 <= i < init.len() && is_word_char(#[trigger] init[i]);
            assert(s[i] == init[i]);
            let q = choose|q: int| 0 <= q < rest.len() && #[trigger] rest[q] != '-';
            assert(n[q] == rest[q]);
        } else if is_word_char(x) {
            assert(s[s.len() - 1] == x);
            assert(n[rest.len() as int] == to_ascii_lowercase_spec(x));
        } else {
            assert forall|i: int| 0 <= i < n.len() implies #[trigger] n[i] == '-' by {
                if i < rest.len() {
                    assert(n[i] == rest[i]);
                }
            }
            assert forall|i: int| 0 <= i < s.len() implies !is_word_char(#[trigger] s[i]) by {
                if i < s.len() - 1 {
                    assert(s[i] == init[i]);
                }
            }
        }
    }
}

/// A saved theme's name is made of lowercase letters, digits, `-` and `_`,
/// neither starts nor ends with `-`, normalizing it again changes nothing,
/// and it is empty exactly when the typed text has no ASCII letter, digit or
/// `_`.
pub proof fn lemma_normalized_name_canonical(s: Seq<char>)
    ensures
        forall|i: int|
            0 <= i < normalized_name(s).len() ==> is_slug_char(#[trigger] normalized_name(s)[i]),
        normalized_name(s).len() > 0 ==> normalized_name(s)[0] != '-' && normalized_name(s).last()
            != '-',
        normalized_name(normalized_name(s)) == normalized_name(s),
        normalized_name(s).len() == 0 <==> forall|i: int| 0 <= i < s.len() ==> !is_word_char(#[trigger] s[i]),
{
    let m = normalized_chars(s);
    lemma_normalized_chars_words(s);
    lemma_normalized_chars_are_slug(s);
    let k = lemma_strip_leading_shape(m, '-');
    let y = m.skip(k);
    let j = lemma_strip_trailing_shape(y, '-');
    let n = y.take(j);
    assert(n == normalized_name(s));
    assert forall|i: int| 0 <= i < n.len() implies is_slug_char(#[trigger] n[i]) by {
        assert(n[i] == m[k + i]);
    }
    if n.len() > 0 {
        assert(n[0] == m[k]);
    }
    lemma_slug_chars_normalize_to_themselves(n);
    if n.len() > 0 {
        assert(strip_leading(n, '-') == n);
        assert(strip_trailing(n, '-') == n);
        assert(n[0] != '-');
        assert(m[k] != '-');
    } else {
        assert(strip_leading(n, '-') == n);
        assert(strip_trailing(n, '-') == n);
        assert forall|i: int| 0 <= i < m.len() implies #[trigger] m[i] == '-' by {
            if i >= k {
                assert(m[i] == y[i - k]);
            }
        }
    }
}

// ── Lists ────────────────────────────────────────────────────────────────────

/// With no search text the finder lists every field, in order.
pub proof fn lemma_empty_field_search_lists_all()
    ensures
        fields_matching(Seq::empty()) == all_fields(),
{
    assert(lowercase_seq(Seq::<char>::empty()) =~= Seq::<char>::empty());
    lemma_filter_keeps_all(all_fields(), |f: PaletteField| field_matches(f, Seq::<char>::empty()));
}

proof fn lemma_filter_keeps_all<A>(s: Seq<A>, pred: spec_fn(A) -> bool)
    requires
        forall|x: A| #[trigger] pred(x),
    ensures
        s.filter(pred) == s,
    decreases s.len(),
{
    reveal_with_fuel(Seq::filter, 1);
    if s.len() > 0 {
        lemma_filter_keeps_all(s.drop_last(), pred);
        assert(s.drop_last().push(s.last()) =~= s);
    }
}

proof fn lemma_filter_subset<A>(s: Seq<A>, pred: spec_fn(A) -> bool)
    ensures
        forall|i: int|
            0 <= i < s.filter(pred).len() ==> pred(#[trigger] s.filter(pred)[i]) && s.contains(
                s.filter(pred)[i],
            ),
    decreases s.len(),
{
    reveal_with_fuel(Seq::filter, 1);
    if s.len() > 0 {
        lemma_filter_subset(s.drop_last(), pred);
        let f = s.filter(pred);
        assert forall|i: int| 0 <= i < f.len() implies pred(#[trigger] f[i]) && s.contains(f[i]) by {
            if i < s.drop_last().filter(pred).len() {
                assert(f[i] == s.drop_last().filter(pred)[i]);
                let w = choose|w: int| 0 <= w < s.drop_last().len() && s.drop_last()[w] == f[i];
                assert(s[w] == f[i]);
            } else {
                assert(s[s.len() - 1] == f[i]);
            }
        }
    }
}

/// The loader lists only entries it was given: the built-in filter lists
/// only presets, the saved filter only saved themes, and with the `all`
/// filter and no search it lists every entry in order.
pub proof fn lemma_loader_filters(all: Seq<ThemeEntry>, query: Seq<char>)
    ensures
        forall|i: int|
            0 <= i < visible_entries(all, ThemeFilter::Builtin, query).len() ==> (#[trigger] visible_entries(
                all,
                ThemeFilter::Builtin,
                query,
            )[i]) is Builtin && all.contains(visible_entries(all, ThemeFilter::Builtin, query)[i]),
        forall|i: int|
            0 <= i < visible_entries(all, ThemeFilter::Saved, query).len() ==> (#[trigger] visible_entries(
                all,
                ThemeFilter::Saved,
                query,
            )[i]) is User && all.contains(visible_entries(all, ThemeFilter::Saved, query)[i]),
        loader_query(query).len() == 0 ==> visible_entries(all, ThemeFilter::All, query) == all,
{
    lemma_filter_subset(all, |e: ThemeEntry| entry_visible(e, ThemeFilter::Builtin, loader_query(query)));
    lemma_filter_subset(all, |e: ThemeEntry| entry_visible(e, ThemeFilter::Saved, loader_query(query)));
    if loader_query(query).len() == 0 {
        crate::ui::state::lemma_visible_all_unfiltered(all, query);
    }
}

} // verus!
