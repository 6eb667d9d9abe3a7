use omarchy_theme_studio::theme::{PaletteField, PaletteGroup, RgbColor, Theme, ThemePalette};
use omarchy_theme_studio::ui::render::{region_label, Region};
use omarchy_theme_studio::ui::state::{InputMode, ThemeFilter};
use omarchy_theme_studio::ui::view::{
    finder_empty_line, help_footer, help_header, help_hints, help_list, help_notes, help_row_count,
    loader_footer, overlays, update_restart_lines, Overlay, Paint, Piece,
};
use omarchy_theme_studio::ui::picker::{Picker, PickerMode};
use omarchy_theme_studio::ui::view::{hex_field, mode_pills, picker_hints};
use omarchy_theme_studio::ui::App;

fn text(line: &[Piece]) -> String {
    line.iter().map(|p| p.text.as_str()).collect()
}

fn all_text(lines: &[Vec<Piece>]) -> Vec<String> {
    lines.iter().map(|l| text(l)).collect()
}

#[test]
fn preview_renders_desktop_regions() {
    let app = App::default();
    let titles: Vec<String> = [Region::ActiveWindow, Region::Launcher, Region::Terminal, Region::Notification]
        .into_iter()
        .map(|r| app.title(r, region_label(r)))
        .collect();
    assert!(titles[0].contains("Active window"));
    assert!(titles[1].contains("Launcher"));
    assert!(titles[2].contains("Terminal"));
    assert!(titles[3].contains("Notification"));
    // The desktop is selected by default, so its banner names the field.
    assert_eq!(text(&app.desktop_banner()), " Desktop   background / foreground / accent · editing Background ");
}

#[test]
fn terminal_panel_uses_palette_background() {
    let mut app = App::default();
    app.theme.palette.terminal_background = RgbColor::new(7, 9, 11);
    let lines = app.terminal_lines();
    let piece = lines
        .iter()
        .flatten()
        .find(|p| p.text.contains("applied"))
        .expect("terminal sample should render");
    assert_eq!(piece.bg, Some(Paint::Rgb(RgbColor::new(7, 9, 11))));
}

#[test]
fn group_tabs_show_all_six_groups() {
    let app = App::default();
    let tabs = text(&app.group_tabs());
    for label in ["Desktop", "Windows", "Waybar", "Launcher", "Terminal", "Notification"] {
        assert!(tabs.contains(label), "group tab '{label}' should render");
    }
    assert!(tabs.starts_with(" 1 Desktop   2 Windows   3 Waybar "));
}

#[test]
fn field_selector_shows_active_group_fields() {
    // Desktop group is selected by default; its leaf labels appear up top.
    let app = App::default();
    let line = app.field_selector_line(120);
    assert!(text(&line).contains("Accent 2"), "selector should list group fields");
}

#[test]
fn field_search_overlay_lists_matches() {
    let mut app = App::default();
    app.open_field_search();
    for c in "laun".chars() {
        app.push_field_search_char(c);
    }
    let rows: Vec<String> = app.filtered_fields().into_iter().map(|f| text(&app.finder_row(f, false))).collect();
    assert!(rows.iter().any(|r| r.contains("Launcher background")));
    assert_eq!(text(&app.finder_query()), " › laun_");
}

#[test]
fn every_input_mode_renders_without_panic() {
    let modes = [
        InputMode::Preview,
        InputMode::ColorPicker,
        InputMode::ThemeNameInput,
        InputMode::ApplyConfirm,
        InputMode::FieldSearch,
        InputMode::ThemeLoad,
        InputMode::Help,
    ];
    for mode in modes {
        let mut app = App::default();
        app.refresh_theme_list(Ok(Vec::new()));
        app.input_mode = mode;
        for overlay in overlays(mode) {
            match overlay {
                Overlay::ThemeName => assert!(!app.name_prompt_lines().is_empty()),
                Overlay::ApplyConfirm => assert!(!app.apply_confirm_lines().is_empty()),
                Overlay::FieldSearch => assert!(!app.finder_query().is_empty()),
                Overlay::ThemeLoad => {
                    for i in 0..app.loadable_themes.len() {
                        assert!(!app.theme_card(i, i == 0, 60).is_empty());
                    }
                }
                Overlay::Help => assert_eq!(help_list().len(), help_row_count()),
                Overlay::ColorPicker | Overlay::UpdateRestart => {}
            }
        }
    }
}

#[test]
fn overlays_follow_the_mode() {
    assert!(overlays(InputMode::Preview).is_empty());
    assert_eq!(overlays(InputMode::ThemeLoadRename), vec![Overlay::ThemeLoad, Overlay::ThemeName]);
    assert_eq!(overlays(InputMode::ThemeLoadDeleteConfirm), vec![Overlay::ThemeLoad]);
    assert_eq!(overlays(InputMode::UpdateRestartConfirm), vec![Overlay::UpdateRestart]);
    assert_eq!(overlays(InputMode::Help), vec![Overlay::Help]);
}

#[test]
fn waybar_fills_to_the_width() {
    let app = App::default();
    let bar = app.waybar_line(60);
    let shown = text(&bar);
    assert!(shown.starts_with("  1  2  3 "));
    assert!(shown.ends_with("  12:34   80%   "));
    // Every piece here is one column per character.
    assert_eq!(shown.chars().count(), 60);
    let mut lit = App::default();
    lit.select_group(PaletteGroup::Waybar);
    let bar = lit.waybar_line(60);
    assert_eq!(bar[0].text, " ▶ ");
    assert_eq!(bar[0].fg, Some(Paint::Rgb(lit.theme.palette.waybar_active_workspace)));
    // A narrow bar gets no filler.
    assert_eq!(text(&app.waybar_line(5)), "  1  2  3   12:34   80%   ");
}

#[test]
fn status_bar_summarises_the_selection() {
    let mut app = App::default();
    app.theme = Theme::new("dusk", ThemePalette::default());
    app.dirty = true;
    let line = app.status_line(200);
    let last = line.last().expect("summary");
    assert_eq!(last.text, format!(" dusk* · Background · {} ", app.current_color().to_hex()));
    assert!(last.bold);
    assert_eq!(line[line.len() - 2].bg, Some(Paint::Rgb(app.current_color())));
    assert!(app.status_message(200).is_none());
    app.message = Some(String::from("✗ nope"));
    let (msg, cover) = app.status_message(200).expect("message");
    assert_eq!(msg[0].text, " ✗ nope ");
    assert_eq!(msg[0].fg, Some(Paint::Red));
    assert_eq!(cover, 8);
    app.message = Some(String::from("Yanked #123456"));
    let (msg, cover) = app.status_message(10).expect("message");
    assert_eq!(msg[0].fg, Some(Paint::Green));
    assert_eq!(cover, 10);
}

#[test]
fn field_selector_centers_its_chips() {
    let app = App::default();
    let line = app.field_selector_line(120);
    // One pad piece, then five pieces per Desktop field.
    assert_eq!(line.len(), 1 + 5 * 4);
    let chips: usize = line[1..].iter().map(|p| p.text.chars().count()).sum();
    assert_eq!(line[0].text.len(), (120 - chips) / 2);
    // The selected chip is boxed and lit.
    assert_eq!(line[1].text, "▏");
    assert_eq!(line[3].text, " Background ");
    assert!(line[3].bold);
    assert_eq!(line[3].bg, Some(Paint::ChipBg));
    assert_eq!(line[8].text, " Foreground ");
    assert_eq!(line[8].fg, Some(Paint::ChromeMuted));
}

#[test]
fn prompts_show_what_will_happen() {
    let mut app = App::default();
    app.theme_name_input = String::from("My Theme!");
    let prompt = all_text(&app.name_prompt_lines());
    assert_eq!(prompt[2], " Name: My Theme!_");
    assert_eq!(prompt[3], " Dir:  ~/.config/omarchy/themes/my-theme/");
    app.theme_name_input = String::from("!!!");
    assert_eq!(all_text(&app.name_prompt_lines())[3], " Dir:  <invalid>");
    app.theme = Theme::new("Night Owl", ThemePalette::default());
    assert_eq!(all_text(&app.apply_confirm_lines())[0], " Run omarchy-theme-set \"night-owl\"?");
    assert_eq!(all_text(&update_restart_lines())[0], " The new build is ready.");
    assert_eq!(text(&finder_empty_line()), "   no match");
}

#[test]
fn finder_rows_mark_the_highlight() {
    let app = App::default();
    let row = app.finder_row(PaletteField::TerminalForeground, true);
    assert_eq!(text(&row), " ▸ ● Terminal     Terminal foreground");
    assert_eq!(row[0].bg, Some(Paint::MatchBg));
    assert!(row[3].bold);
    let row = app.finder_row(PaletteField::TerminalForeground, false);
    assert_eq!(row[0].text, "   ");
    assert_eq!(row[3].fg, Some(Paint::ListText));
}

#[test]
fn help_lists_every_key() {
    let list = help_list();
    assert_eq!(list.len(), 35);
    assert_eq!(help_row_count(), 35);
    let shown = all_text(&list);
    assert_eq!(shown[0], "  Editor ");
    assert_eq!(shown[1], " 1–6               Jump to a palette group");
    assert_eq!(shown[15], "");
    assert_eq!(shown[16], "  Color Picker ");
    assert_eq!(shown[34], " Esc               Clear search or cancel");
    assert!(!shown.iter().any(|l| l.contains("Mouse")));
    let header = text(&help_header(60));
    assert!(header.starts_with(" omarchy-theme-studio · Help "));
    assert!(header.ends_with("35 rows"));
    assert_eq!(header.chars().count(), 60);
    assert_eq!(text(&help_hints()), " ↑↓  scroll   PgUp/PgDn  jump");
    assert_eq!(text(&help_footer()), " ↑↓  scroll   Home/End  jump   Esc  close");
    let notes = help_notes(4, 20);
    assert_eq!(text(&notes[6]), " Showing from row 5 of 35");
    assert_eq!(notes[6][0].fg, Some(Paint::AccentFg));
    let notes = help_notes(0, 40);
    assert_eq!(notes[6][0].fg, Some(Paint::ChromeFg));
}

#[test]
fn loader_rows_and_header() {
    let mut app = App::default();
    app.open_theme_load_dialog(Ok(Vec::new()));
    let header = text(&app.loader_header(70));
    assert!(header.starts_with(" Themes "));
    assert!(header.contains(" / (type to filter)"));
    assert!(header.ends_with(" 4 matches"));
    // The gap is sized without the two columns before the count, so the row
    // runs two columns past the panel, which clips them.
    assert_eq!(header.chars().count(), 72);
    app.theme_search_query = String::from("//no");
    app.search_focused = true;
    assert!(text(&app.loader_header(70)).contains(" / no_"));
    assert_eq!(all_text(&app.loader_empty_lines())[2], " \"/no\"");
    app.theme_search_query.clear();
    app.search_focused = false;

    let pills = app.filter_row();
    assert_eq!(text(&pills), " A  all   D  built-in   S  saved  ");
    assert_eq!(pills[1].bg, Some(Paint::AccentBg));
    app.set_theme_filter(ThemeFilter::Saved);
    let pills = app.filter_row();
    assert_eq!(pills[1].bg, Some(Paint::SubtleBg));
    assert_eq!(pills[13].bg, Some(Paint::AccentBg));
    app.set_theme_filter(ThemeFilter::Saved);

    let first = app.theme_card(0, true, 40);
    assert_eq!(first[0].text, "> ");
    assert_eq!(first[1].text.chars().count(), 25);
    assert!(first[1].text.starts_with(app.loadable_themes[0].name()));
    assert_eq!(first.last().map(|p| p.text.as_str()), Some("B"));
    assert_eq!(first.len(), 7);
    let other = app.theme_card(1, false, 40);
    assert_eq!(other[0].text, "  ");
    assert_eq!(other[1].text.chars().count(), 33);
    assert_eq!(other.len(), 5);
    assert_eq!(
        text(&loader_footer()),
        " ↑↓  move   Enter  load   type  filter   Esc  close"
    );
}

#[test]
fn picker_text_shows_mode_focus_and_hex() {
    let pills = mode_pills(PickerMode::Hsl);
    assert_eq!(text(&pills), " RGB   HSL ");
    assert_eq!(pills[0].bg, Some(Paint::SubtleBg));
    assert_eq!(pills[2].bg, Some(Paint::AccentBg));
    let mut picker = Picker::new();
    let c = RgbColor::new(0x12, 0xab, 0x00);
    assert_eq!(text(&hex_field(&picker, c)), "   HEX  #12ab00");
    picker.begin_hex();
    picker.push_hex('F');
    assert_eq!(text(&hex_field(&picker, c)), " ▸ HEX  #F_");
    assert_eq!(all_text(&picker_hints()).len(), 2);
}
