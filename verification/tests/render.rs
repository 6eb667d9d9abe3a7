use omarchy_theme_studio::theme::PaletteField;
use omarchy_theme_studio::ui::render::{
    centered_rect, clip_text, field_leaf_label, field_search_height, field_search_window,
    help_overlay_size, help_scroll_offset, loader_overlay_height, loader_overlay_width,
    loader_scroll, region_label, region_of, theme_card_name_width, Rect, Region,
};
use omarchy_theme_studio::ui::App;

#[test]
fn centered_rect_centers_and_shrinks() {
    let area = Rect { x: 0, y: 0, width: 120, height: 40 };
    assert_eq!(centered_rect(area, 60, 9), Rect { x: 30, y: 15, width: 60, height: 9 });
    assert_eq!(centered_rect(area, 200, 100), Rect { x: 1, y: 1, width: 118, height: 38 });
    let tiny = Rect { x: 5, y: 7, width: 1, height: 0 };
    assert_eq!(centered_rect(tiny, 10, 10), Rect { x: 5, y: 7, width: 1, height: 1 });
    // ratatui cuts a rect that would run past the last column.
    let edge = Rect { x: 65534, y: 0, width: 1, height: 3 };
    assert_eq!(centered_rect(edge, 5, 5), Rect { x: 65534, y: 1, width: 1, height: 1 });
}

#[test]
fn regions_labels_and_titles() {
    assert!(region_of(PaletteField::Accent2) == Region::Desktop);
    assert!(region_of(PaletteField::InactiveBorder) == Region::InactiveWindow);
    assert!(region_of(PaletteField::LauncherSelectedForeground) == Region::Launcher);
    assert_eq!(field_leaf_label(PaletteField::WaybarActiveWorkspace), "Active workspace");
    assert_eq!(field_leaf_label(PaletteField::NotificationBackground), "Background");
    assert_eq!(clip_text("héllo wörld", 4), "héll");
    assert_eq!(clip_text("ab", 10), "ab");
    let app = App::default();
    assert!(app.sel(Region::Desktop));
    assert!(!app.sel(Region::Terminal));
    assert_eq!(app.title(Region::Desktop, "Desktop"), " ▶ Desktop ◀ ");
    assert_eq!(app.title(Region::Terminal, "Terminal"), " Terminal ");
}

#[test]
fn loader_geometry() {
    // Short names keep the minimum width; long ones grow it up to 78.
    assert_eq!(loader_overlay_width(10, 200), 64);
    assert_eq!(loader_overlay_width(50, 200), 68);
    assert_eq!(loader_overlay_width(100, 200), 78);
    // The screen wins over the minimum.
    assert_eq!(loader_overlay_width(10, 40), 36);
    assert_eq!(loader_overlay_width(10, 2), 0);
    assert_eq!(loader_overlay_width(u16::MAX, 200), 78);
    // Scrolling keeps the highlight mid-page without running past the end.
    assert_eq!(loader_scroll(5, 4, 10), 0);
    assert_eq!(loader_scroll(30, 3, 10), 0);
    assert_eq!(loader_scroll(30, 12, 10), 7);
    assert_eq!(loader_scroll(30, 29, 10), 20);
    // Name column on a loader row.
    assert_eq!(theme_card_name_width(60, true), 45);
    assert_eq!(theme_card_name_width(60, false), 53);
    assert_eq!(theme_card_name_width(10, true), 12);
}

#[test]
fn finder_and_help_geometry() {
    assert_eq!(field_search_height(0), 4);
    assert_eq!(field_search_height(5), 8);
    assert_eq!(field_search_height(17), 15);
    assert_eq!(field_search_window(5, 2, 10), (2, 0));
    assert_eq!(field_search_window(5, 9, 10), (4, 0));
    assert_eq!(field_search_window(17, 15, 12), (15, 4));
    assert_eq!(field_search_window(17, 15, 0), (15, 16));
    assert_eq!(help_scroll_offset(0, 40, 20), 0);
    assert_eq!(help_scroll_offset(7, 40, 20), 7);
    assert_eq!(help_scroll_offset(u16::MAX, 40, 20), 20);
    assert_eq!(help_scroll_offset(3, 10, 20), 0);
}

#[test]
fn overlay_sizes_leave_a_margin() {
    assert_eq!(help_overlay_size(120, 40), (84, 24));
    assert_eq!(help_overlay_size(60, 20), (56, 18));
    assert_eq!(help_overlay_size(3, 1), (0, 0));
    assert_eq!(loader_overlay_height(40), 20);
    assert_eq!(loader_overlay_height(12), 10);
    assert_eq!(loader_overlay_height(0), 0);
    assert_eq!(region_label(Region::ActiveWindow), "Active window — Hyprland");
    assert_eq!(region_label(Region::InactiveWindow), "Inactive window");
}

#[test]
fn longest_loader_name_counts_characters() {
    let mut app = App::default();
    assert_eq!(app.longest_loader_name(), 24);
    app.open_theme_load_dialog(Ok(Vec::new()));
    // tokyo-night is the longest built-in name.
    assert_eq!(app.longest_loader_name(), 11);
}
