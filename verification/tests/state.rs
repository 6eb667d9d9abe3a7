use omarchy_theme_studio::config::ConfigError;
use omarchy_theme_studio::theme::presets::get;
use omarchy_theme_studio::theme::{PaletteField, PaletteGroup, RgbColor, ThemePalette};
use omarchy_theme_studio::ui::normalize_theme_name;
use omarchy_theme_studio::ui::state::{
    App, InputMode, SavedTheme, ThemeEntry, ThemeFilter, UpdateMsg, UpdatePoll, UpdateStatus,
};

#[test]
fn number_jump_selects_group_first_field() {
    let mut app = App::default();
    app.select_group_index(2); // Waybar
    assert_eq!(app.selected, PaletteGroup::Waybar.fields()[0]);
    assert_eq!(app.selected.group(), PaletteGroup::Waybar);
}

#[test]
fn next_group_wraps_to_first() {
    let mut app = App::default();
    app.select_group(PaletteGroup::Notification);
    app.next_group();
    assert_eq!(app.selected.group(), PaletteGroup::Desktop);
}

#[test]
fn field_nav_stays_within_group_and_wraps() {
    let mut app = App::default();
    app.select_group(PaletteGroup::Waybar); // 3 fields
    let start = app.selected;
    for _ in 0..3 {
        app.next_field_in_group();
        assert_eq!(app.selected.group(), PaletteGroup::Waybar, "must not spill out of group");
    }
    assert_eq!(app.selected, start, "should wrap after a full cycle");
}

#[test]
fn filtered_fields_narrows_to_launcher() {
    let mut app = App::default();
    app.field_search_query = "laun".to_string();
    let m = app.filtered_fields();
    assert_eq!(m.len(), 4);
    assert!(m.iter().all(|f| f.group() == PaletteGroup::Launcher));
}

#[test]
fn commit_field_search_selects_and_closes() {
    let mut app = App::default();
    app.open_field_search();
    for c in "active".chars() {
        app.push_field_search_char(c);
    }
    let expected = app.filtered_fields()[app.field_search_index];
    app.commit_field_search();
    assert_eq!(app.selected, expected);
    assert_eq!(app.input_mode, InputMode::Preview);
}

// ── Field navigation and search ─────────────────────────────────────────────

#[test]
fn prev_field_wraps_to_last_in_group_and_undoes_next() {
    let mut app = App::default();
    app.prev_field_in_group();
    assert_eq!(app.selected, PaletteField::Accent2);
    app.next_field_in_group();
    assert_eq!(app.selected, PaletteField::Background);
    app.prev_group();
    assert_eq!(app.selected, PaletteField::NotificationBackground);
    app.next_group();
    assert_eq!(app.selected, PaletteField::Background);
    app.select_group_index(6);
    assert_eq!(app.selected, PaletteField::Background);
}

#[test]
fn field_search_is_case_insensitive_substring() {
    let mut app = App::default();
    app.field_search_query = "ACTIVE".to_string();
    assert_eq!(
        app.filtered_fields(),
        vec![PaletteField::ActiveBorder, PaletteField::InactiveBorder, PaletteField::WaybarActiveWorkspace]
    );
    app.field_search_query = "windows inactive".to_string();
    assert_eq!(app.filtered_fields(), vec![PaletteField::InactiveBorder]);
    app.field_search_query = "zzz".to_string();
    assert!(app.filtered_fields().is_empty());
    app.field_search_query.clear();
    assert_eq!(app.filtered_fields(), PaletteField::all().to_vec());
}

#[test]
fn move_field_search_wraps_both_ways() {
    let mut app = App::default();
    app.open_field_search();
    app.move_field_search(-1);
    assert_eq!(app.field_search_index, 16);
    app.move_field_search(1);
    assert_eq!(app.field_search_index, 0);
    app.move_field_search(20);
    assert_eq!(app.field_search_index, 3);
    app.field_search_index = 99;
    app.move_field_search(-35);
    assert_eq!(app.field_search_index, 15); // min(99, 16) - 35 = -19 ≡ 15 (mod 17)
    app.field_search_query = "zzz".to_string();
    app.move_field_search(3);
    assert_eq!(app.field_search_index, 0);
}

#[test]
fn commit_field_search_reports_the_field_and_pop_shrinks_query() {
    let mut app = App::default();
    app.open_field_search();
    for c in "termx".chars() {
        app.push_field_search_char(c);
    }
    app.pop_field_search_char();
    assert_eq!(app.field_search_query, "term");
    app.move_field_search(1);
    app.commit_field_search();
    assert_eq!(app.selected, PaletteField::TerminalForeground);
    assert_eq!(app.message.as_deref(), Some("→ Terminal foreground"));
    app.open_field_search();
    app.push_field_search_char('q');
    app.commit_field_search();
    assert_eq!(app.selected, PaletteField::TerminalForeground);
    app.open_field_search();
    app.cancel_field_search();
    assert_eq!(app.input_mode, InputMode::Preview);
    assert_eq!(app.message, None);
}

// ── Theme names ─────────────────────────────────────────────────────────────

#[test]
fn normalize_theme_name_builds_slugs() {
    assert_eq!(normalize_theme_name("  My Cool Theme!! "), "my-cool-theme");
    assert_eq!(normalize_theme_name("A_b-C"), "a_b-c");
    assert_eq!(normalize_theme_name("\tx\ny"), "x-y");
    assert_eq!(normalize_theme_name("---"), "");
    assert_eq!(normalize_theme_name("ünïcode 東京"), "ncode");
    assert_eq!(normalize_theme_name("a  b"), "a--b");
    assert_eq!(normalize_theme_name(""), "");
    for s in ["  My Cool Theme!! ", "-x-", "Z z"] {
        let once = normalize_theme_name(s);
        assert_eq!(normalize_theme_name(&once), once);
    }
}

#[test]
fn name_input_takes_only_name_characters() {
    let mut app = App::default();
    app.theme_name_input.clear();
    for c in "My théme!_1".chars() {
        app.push_theme_name_char(c);
    }
    assert_eq!(app.theme_name_input, "My thme_1");
    app.pop_theme_name_char();
    assert_eq!(app.theme_name_input, "My thme_");
}

// ── Colors: picker, yank, paste, undo ───────────────────────────────────────

#[test]
fn paste_then_undo_restores_the_palette() {
    let mut app = App::default();
    let original = app.theme.palette;
    app.paste_color();
    assert_eq!(app.message.as_deref(), Some("Nothing to paste"));
    app.select_group(PaletteGroup::Windows);
    app.yank_color();
    assert_eq!(app.message.as_deref(), Some("Yanked #7aa2f7"));
    app.next_field_in_group();
    app.paste_color();
    assert_eq!(app.message.as_deref(), Some("Pasted #7aa2f7"));
    assert_eq!(app.theme.palette.inactive_border, RgbColor::new(0x7a, 0xa2, 0xf7));
    assert!(app.dirty);
    app.select_group(PaletteGroup::Desktop);
    app.undo_color();
    assert_eq!(app.selected, PaletteField::InactiveBorder);
    assert_eq!(app.theme.palette, original);
    assert_eq!(app.message.as_deref(), Some("Undone"));
    app.undo_color();
    assert_eq!(app.message.as_deref(), Some("Nothing to undo"));
}

#[test]
fn undo_reports_what_is_left_and_keeps_sixty_four() {
    let mut app = App::default();
    app.clipboard_color = Some(RgbColor::new(1, 1, 1));
    for _ in 0..70 {
        app.paste_color();
    }
    assert_eq!(app.undo_stack.len(), 64);
    app.undo_color();
    assert_eq!(app.message.as_deref(), Some("Undone (63 more)"));
}

#[test]
fn cancelled_picker_restores_and_kept_change_is_undoable() {
    let mut app = App::default();
    let original = app.theme.palette;
    app.open_color_picker();
    assert_eq!(app.input_mode, InputMode::ColorPicker);
    assert_eq!(app.original_color, Some(original.background));
    app.apply_current_color(RgbColor::new(9, 9, 9));
    assert_eq!(app.current_color(), RgbColor::new(9, 9, 9));
    app.close_color_picker(false);
    assert_eq!(app.theme.palette, original);
    assert_eq!(app.original_color, None);
    assert!(app.undo_stack.is_empty());

    app.open_color_picker();
    app.apply_current_color(RgbColor::new(9, 9, 9));
    app.close_color_picker(true);
    assert_eq!(app.undo_stack, vec![(PaletteField::Background, original.background)]);
    app.undo_color();
    assert_eq!(app.theme.palette, original);

    // Keeping an unchanged color records nothing.
    app.open_color_picker();
    app.close_color_picker(true);
    assert!(app.undo_stack.is_empty());
}

// ── Save / apply ────────────────────────────────────────────────────────────

fn saved(names: &[&str]) -> Result<Vec<SavedTheme>, ConfigError> {
    Ok(names
        .iter()
        .map(|n| SavedTheme { name: n.to_string(), palette: Ok(get("nord").unwrap()) })
        .collect())
}

#[test]
fn save_normalizes_the_name_and_reports_the_export() {
    let mut app = App::default();
    app.open_theme_name_input();
    assert_eq!(app.input_mode, InputMode::ThemeNameInput);
    assert_eq!(app.theme_name_input, "untitled");
    app.theme_name_input = "  !! ".to_string();
    assert!(!app.save_theme_as_input_name());
    assert_eq!(app.message.as_deref(), Some("✗ Theme name must contain letters or numbers"));
    app.theme_name_input = "My Theme".to_string();
    app.dirty = true;
    assert!(app.save_theme_as_input_name());
    assert_eq!(app.theme.name, "my-theme");
    assert_eq!(app.theme_name_input, "my-theme");
    app.finish_save_theme(Ok("/home/u/.config/omarchy/themes/my-theme".to_string()), saved(&["my-theme"]));
    assert_eq!(app.message.as_deref(), Some("✓ Exported to /home/u/.config/omarchy/themes/my-theme"));
    assert!(!app.dirty);
    assert_eq!(app.input_mode, InputMode::Preview);
    assert_eq!(app.all_themes.len(), 5);

    app.dirty = true;
    app.export_theme(Err(ConfigError::Io("read-only file system".to_string())));
    assert_eq!(app.message.as_deref(), Some("✗ Error: IO error: read-only file system"));
    assert!(app.dirty);
}

#[test]
fn apply_is_gated_and_confirmed() {
    let mut app = App::default();
    app.begin_apply();
    assert_eq!(app.message.as_deref(), Some("omarchy-theme-set not found — export only"));
    assert_eq!(app.input_mode, InputMode::Preview);

    app.apply_available = true;
    app.theme.name = "!!".to_string();
    app.begin_apply();
    assert_eq!(app.input_mode, InputMode::ThemeNameInput);

    app.theme.name = "My Theme".to_string();
    app.begin_apply();
    assert_eq!(app.input_mode, InputMode::ApplyConfirm);
    assert_eq!(
        app.message.as_deref(),
        Some("Apply \"my-theme\" to the live desktop with omarchy-theme-set? y = yes, n = no")
    );
    app.cancel_apply();
    assert_eq!(app.message.as_deref(), Some("Apply cancelled"));

    app.confirm_apply(Ok("/t".to_string()), Ok(()));
    assert_eq!(app.message.as_deref(), Some("✓ Applied \"My Theme\""));
    assert!(app.force_redraw);
    app.confirm_apply(Ok("/t".to_string()), Err(ConfigError::Apply("sh exited with 1".to_string())));
    assert_eq!(app.message.as_deref(), Some("✗ Apply failed: sh exited with 1"));
}

// ── Theme loader ────────────────────────────────────────────────────────────

fn names(entries: &[ThemeEntry]) -> Vec<String> {
    entries.iter().map(|e| e.name().to_string()).collect()
}

#[test]
fn loader_lists_saved_themes_sorted_then_presets() {
    let mut app = App::default();
    app.open_theme_load_dialog(saved(&["zebra", "alpha", "Mango"]));
    assert_eq!(
        names(&app.all_themes),
        vec!["Mango", "alpha", "zebra", "tokyo-night", "nord", "gruvbox", "rose-pine"]
    );
    assert_eq!(names(&app.loadable_themes), names(&app.all_themes));
    assert!(!app.all_themes[2].is_builtin());
    assert!(app.all_themes[3].is_builtin());
    assert_eq!(app.input_mode, InputMode::ThemeLoad);
    assert_eq!(app.message.as_deref(), Some("Select a theme to load"));
    // "untitled" is not listed: the first entry is highlighted and previewed.
    assert_eq!(app.selected_theme_index, 0);
    assert_eq!(app.theme.name, "Mango");
    assert_eq!(app.theme.palette, get("nord").unwrap());
    assert_eq!(app.theme_swatches.len(), 7);
    let nord = get("nord").unwrap();
    assert_eq!(
        app.swatches_for("alpha"),
        Some([nord.background, nord.accent, nord.accent2, nord.active_border])
    );
    assert_eq!(app.swatches_for("nothing"), None);
    app.cancel_theme_load();
    assert_eq!(app.theme.name, "untitled");
    assert_eq!(app.theme.palette, ThemePalette::default());
    assert_eq!(app.input_mode, InputMode::Preview);
}

#[test]
fn loader_highlights_the_current_theme_and_filters() {
    let mut app = App::default();
    app.theme.name = "gruvbox".to_string();
    app.open_theme_load_dialog(saved(&["mine"]));
    assert_eq!(app.selected_theme_index, 3);
    assert_eq!(app.theme.palette, get("gruvbox").unwrap());

    app.set_theme_filter(ThemeFilter::Saved);
    assert_eq!(names(&app.loadable_themes), vec!["mine"]);
    assert_eq!(app.theme.name, "mine");
    app.set_theme_filter(ThemeFilter::Saved);
    assert_eq!(app.theme_filter, ThemeFilter::All);
    app.set_theme_filter(ThemeFilter::Builtin);
    assert_eq!(names(&app.loadable_themes), vec!["tokyo-night", "nord", "gruvbox", "rose-pine"]);

    app.theme_search_query = "/RP".to_string();
    app.apply_filter_to_list();
    assert_eq!(names(&app.loadable_themes), vec!["rose-pine"]);
    assert_eq!(app.selected_theme_index, 0);
    app.theme_search_query = "tn".to_string();
    app.apply_filter_to_list();
    assert_eq!(names(&app.loadable_themes), vec!["tokyo-night"]);
}

#[test]
fn loader_moves_and_loads() {
    let mut app = App::default();
    app.open_theme_load_dialog(saved(&["a"]));
    app.move_theme_selection_up();
    assert_eq!(app.selected_theme_index, 4);
    assert_eq!(app.theme.name, "rose-pine");
    app.move_theme_selection_down();
    assert_eq!(app.selected_theme_index, 0);
    app.move_theme_selection_to(2);
    assert_eq!(app.theme.name, "nord");
    app.dirty = true;
    app.load_selected_theme();
    assert_eq!(app.message.as_deref(), Some("✓ Loaded: nord"));
    assert_eq!(app.theme_name_input, "nord");
    assert!(!app.dirty);
    assert_eq!(app.original_theme, None);
    assert_eq!(app.input_mode, InputMode::Preview);
}

#[test]
fn loader_reports_unreadable_themes_and_listing_errors() {
    let mut app = App::default();
    let listed = Ok(vec![SavedTheme {
        name: "broken".to_string(),
        palette: Err(ConfigError::Parse("expected value at line 1".to_string())),
    }]);
    app.open_theme_load_dialog(listed);
    assert_eq!(app.theme.name, "untitled");
    assert_eq!(app.swatches_for("broken"), Some([RgbColor::new(50, 50, 50); 4]));
    app.load_selected_theme();
    assert_eq!(
        app.message.as_deref(),
        Some("✗ Error loading \"broken\": Could not parse palette: expected value at line 1")
    );
    assert_eq!(app.input_mode, InputMode::ThemeLoad);

    app.refresh_theme_list(Err(ConfigError::Io("permission denied".to_string())));
    assert_eq!(app.message.as_deref(), Some("✗ Error listing themes: IO error: permission denied"));
    assert_eq!(names(&app.all_themes), vec!["tokyo-night", "nord", "gruvbox", "rose-pine"]);
}

#[test]
fn rename_and_delete_flows() {
    let mut app = App::default();
    app.open_theme_load_dialog(saved(&["old-one"]));
    app.move_theme_selection_to(1);
    app.begin_rename_selected_theme();
    assert_eq!(app.message.as_deref(), Some("Cannot rename built-in themes"));
    app.begin_delete_selected_theme();
    assert_eq!(app.message.as_deref(), Some("Cannot delete built-in themes"));

    app.move_theme_selection_to(0);
    app.begin_rename_selected_theme();
    assert_eq!(app.input_mode, InputMode::ThemeLoadRename);
    assert_eq!(app.theme_name_input, "old-one");
    app.theme_name_input = "??".to_string();
    assert_eq!(app.commit_rename_theme(), None);
    assert_eq!(app.message.as_deref(), Some("✗ Invalid name"));
    app.theme_name_input = "New One".to_string();
    assert_eq!(app.commit_rename_theme(), Some(("old-one".to_string(), "new-one".to_string())));
    app.finish_rename_theme(Ok(()), saved(&["new-one"]));
    assert_eq!(app.message.as_deref(), Some("✓ Renamed to new-one"));
    assert_eq!(app.input_mode, InputMode::ThemeLoad);
    assert_eq!(app.all_themes[0].name(), "new-one");

    app.begin_delete_selected_theme();
    assert_eq!(app.input_mode, InputMode::ThemeLoadDeleteConfirm);
    assert_eq!(app.message.as_deref(), Some("Delete \"new-one\"? y = confirm, n = cancel"));
    assert_eq!(app.theme_pending_delete(), "new-one");
    app.confirm_delete_theme(Ok(()), saved(&[]));
    assert_eq!(app.message.as_deref(), Some("✓ Deleted \"new-one\""));
    assert_eq!(app.input_mode, InputMode::ThemeLoad);
    assert_eq!(app.all_themes.len(), 4);

    app.loader_action_index = 0;
    app.finish_rename_theme(Err(ConfigError::Io("exists".to_string())), saved(&[]));
    assert_eq!(app.message.as_deref(), Some("✗ IO error: exists"));
}

// ── Self-update ─────────────────────────────────────────────────────────────

#[test]
fn update_status_messages_and_polling() {
    let mut app = App::default();
    let (_tx, rx) = std::sync::mpsc::channel();
    assert_eq!(app.start_self_update(rx), None);
    assert_eq!(app.message.as_deref(), Some("No update available"));

    let (tx, rx) = std::sync::mpsc::channel();
    app.start_update_check(rx);
    assert_eq!(app.update_status, UpdateStatus::Checking);
    app.poll_update_channel();
    assert_eq!(app.update_status, UpdateStatus::Checking);
    tx.send(UpdateMsg::VersionChecked(Ok(Some("v1.2.0".to_string())))).unwrap();
    app.poll_update_channel();
    assert_eq!(app.update_status, UpdateStatus::Available("v1.2.0".to_string()));
    assert!(app.update_rx.is_none());

    let (tx, rx) = std::sync::mpsc::channel();
    assert_eq!(app.start_self_update(rx), Some("v1.2.0".to_string()));
    assert_eq!(app.update_status, UpdateStatus::Downloading);
    drop(tx);
    app.poll_update_channel();
    assert_eq!(app.update_status, UpdateStatus::Failed("update worker disconnected".to_string()));

    let (_tx, rx) = std::sync::mpsc::channel();
    app.start_self_update(rx);
    assert_eq!(app.message.as_deref(), Some("✗ Update unavailable: update worker disconnected"));

    app.handle_update_poll(UpdatePoll::Received(UpdateMsg::UpdateComplete(Ok(()))));
    assert_eq!(app.update_status, UpdateStatus::Done);
    assert_eq!(app.input_mode, InputMode::UpdateRestartConfirm);
    app.defer_restart();
    assert_eq!(app.update_status, UpdateStatus::Idle);
    assert_eq!(app.input_mode, InputMode::Preview);
    app.confirm_restart();
    assert!(app.restart_after_exit);
    app.handle_update_poll(UpdatePoll::Received(UpdateMsg::VersionChecked(Ok(None))));
    assert_eq!(app.update_status, UpdateStatus::UpToDate);
}

#[test]
fn new_app_starts_on_the_default_theme() {
    let app = App::new();
    assert_eq!(app.theme.name, "untitled");
    assert_eq!(app.theme_name_input, "untitled");
    assert_eq!(app.selected, PaletteField::Background);
    assert_eq!(app.current_color(), ThemePalette::default().background);
}

#[test]
fn loader_search_narrows_and_clears() {
    let mut app = App::default();
    app.open_theme_load_dialog(Ok(Vec::new()));
    let all = app.loadable_themes.len();
    app.push_search_char('n');
    app.push_search_char('r');
    assert!(app.search_focused);
    assert_eq!(app.theme_search_query, "nr");
    assert_eq!(app.loadable_themes.len(), 1);
    assert_eq!(app.loadable_themes[0].name(), "nord");
    assert_eq!(app.theme.name, "nord");
    app.pop_search_char();
    assert_eq!(app.theme_search_query, "n");
    app.end_search();
    assert!(!app.search_focused);
    app.clear_search();
    assert_eq!(app.theme_search_query, "");
    assert_eq!(app.loadable_themes.len(), all);
    app.cancel_theme_load();
    assert_eq!(app.theme.name, "untitled");
}

#[test]
fn help_scrolls_and_prompts_close() {
    let mut app = App::default();
    app.open_help();
    assert_eq!(app.input_mode, InputMode::Help);
    app.scroll_help_down(10);
    app.scroll_help_up(3);
    assert_eq!(app.help_scroll, 7);
    app.scroll_help_up(30);
    assert_eq!(app.help_scroll, 0);
    app.jump_help(true);
    assert_eq!(app.help_scroll, u16::MAX);
    app.scroll_help_down(1);
    assert_eq!(app.help_scroll, u16::MAX);
    app.close_help();
    assert_eq!(app.input_mode, InputMode::Preview);
    app.open_theme_name_input();
    app.push_theme_name_char('x');
    app.leave_name_prompt();
    assert_eq!(app.theme_name_input, "untitled");
    assert_eq!(app.input_mode, InputMode::Preview);
    assert!(app.message.is_none());
    app.back_to_loader();
    assert_eq!(app.input_mode, InputMode::ThemeLoad);
}

#[test]
fn saved_names_cannot_leave_the_themes_directory() {
    for typed in ["../../etc", "a/b", ".", "..", "/root", " ~/x.y "] {
        let n = normalize_theme_name(typed);
        assert!(!n.contains('/') && !n.contains('.'), "{typed:?} gave {n:?}");
    }
    assert_eq!(normalize_theme_name("../../etc"), "etc");
    assert_eq!(normalize_theme_name("a/b"), "ab");
}

#[test]
fn apply_prompt_needs_a_command_and_a_name() {
    let mut app = App::default();
    app.begin_apply();
    assert_eq!(app.input_mode, InputMode::Preview);
    assert_eq!(app.message.as_deref(), Some("omarchy-theme-set not found — export only"));
    app.apply_available = true;
    app.theme.name = String::from("!!");
    app.begin_apply();
    assert_eq!(app.input_mode, InputMode::ThemeNameInput);
    app.theme.name = String::from("Dusk");
    app.begin_apply();
    assert_eq!(app.input_mode, InputMode::ApplyConfirm);
}

#[test]
fn names_empty_only_without_letters_digits_or_underscores() {
    for typed in ["", "  ", "---", "!?*", " - \t", "é"] {
        assert_eq!(normalize_theme_name(typed), "", "{typed:?}");
    }
    assert_eq!(normalize_theme_name("_"), "_");
    assert_eq!(normalize_theme_name(" -7- "), "7");
    assert_eq!(normalize_theme_name("é x"), "x");
}

#[test]
fn loader_down_then_up_returns_and_wraps() {
    let mut app = App::default();
    app.open_theme_load_dialog(Ok(Vec::new()));
    let n = app.loadable_themes.len();
    for start in 0..n {
        app.move_theme_selection_to(start);
        app.move_theme_selection_down();
        assert_eq!(app.selected_theme_index, (start + 1) % n);
        app.move_theme_selection_up();
        assert_eq!(app.selected_theme_index, start);
    }
    app.move_theme_selection_to(0);
    app.move_theme_selection_up();
    assert_eq!(app.selected_theme_index, n - 1);
    assert_eq!(app.theme.name, app.loadable_themes[n - 1].name());
}
