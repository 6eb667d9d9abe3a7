use omarchy_theme_studio::config::{
    apply_failure_text, colors_toml, ghostty_conf, hyprland_conf, hyprlock_conf, readme_md,
    theme_files, walker_css, waybar_css, ConfigError,
};
use omarchy_theme_studio::theme::{RgbColor, Theme, ThemePalette};

#[test]
fn hyprland_conf_uses_bare_hex_for_active_border() {
    let mut p = ThemePalette::default();
    p.active_border = RgbColor::new(0xaa, 0xbb, 0xcc);
    let conf = hyprland_conf(&p);
    assert!(conf.contains("rgb(aabbcc)"), "got: {conf}");
    assert!(!conf.contains("#aabbcc"), "hyprland hex must not include '#'");
}

#[test]
fn colors_toml_has_core_keys() {
    let conf = colors_toml(&ThemePalette::default());
    for key in ["background", "foreground", "accent", "accent_alt"] {
        assert!(conf.contains(&format!("{key} = ")), "missing {key} in {conf}");
    }
}

#[test]
fn hyprlock_conf_defines_color_vars_in_decimal_rgba() {
    let mut p = ThemePalette::default();
    p.background = RgbColor::new(10, 20, 30);
    let conf = hyprlock_conf(&p);
    assert!(conf.contains("$color = rgba(10, 20, 30, 1.0)"), "got: {conf}");
    assert!(conf.contains("$check_color = rgba("));
    // Hyprland rgba() here is decimal — no hex color literals.
    assert!(!conf.contains("rgba(#"));
}

#[test]
fn css_files_match_omarchy_schema() {
    let mut p = ThemePalette::default();
    p.waybar_background = RgbColor::new(0x12, 0x34, 0x56);
    p.launcher_selected_background = RgbColor::new(0x65, 0x43, 0x21);

    let waybar = waybar_css(&p);
    assert!(waybar.contains("@define-color background #123456"));
    assert!(!waybar.contains("window#waybar"), "theme waybar.css must not carry selectors");

    let walker = walker_css(&p);
    // The selection highlight must be defined under the name walker references.
    assert!(walker.contains("@define-color selected-text #654321"), "got: {walker}");
    assert!(!walker.contains("#entry"), "theme walker.css must not carry selectors");
}

#[test]
fn colors_toml_exact_for_the_default_palette() {
    let conf = colors_toml(&ThemePalette::default());
    // #1a1b26 is dark, so the surfaces are lifted by 14 and 28.
    let expected = "# Generated by omarchy-theme-studio\n[palette]\n\
                    background = \"#1a1b26\"\n\
                    foreground = \"#c0caf5\"\n\
                    text = \"#c0caf5\"\n\
                    accent = \"#7aa2f7\"\n\
                    accent_alt = \"#bb9af7\"\n\
                    surface = \"#282934\"\n\
                    surface_alt = \"#363742\"\n";
    assert_eq!(conf, expected);
}

#[test]
fn colors_toml_darkens_surfaces_on_a_light_background() {
    let mut p = ThemePalette::default();
    p.background = RgbColor::new(250, 250, 250);
    let conf = colors_toml(&p);
    assert!(conf.contains("surface = \"#ececec\"\n"), "{conf}");
    assert!(conf.contains("surface_alt = \"#dedede\"\n"), "{conf}");
    // At the float boundary the one color below one half is still "dark".
    p.background = RgbColor::new(61, 156, 41);
    assert!(colors_toml(&p).contains("surface = \"#4baa37\"\n"));
    p.background = RgbColor::new(13, 163, 113);
    assert!(colors_toml(&p).contains("surface = \"#009563\"\n"));
}

#[test]
fn hyprland_conf_exact() {
    let mut p = ThemePalette::default();
    p.active_border = RgbColor::new(1, 2, 3);
    p.inactive_border = RgbColor::new(0xff, 0xee, 0xdd);
    let expected = "# Generated by omarchy-theme-studio\n\
                    $activeBorderColor = rgb(010203)\n\
                    $inactiveBorderColor = rgb(ffeedd)\n\
                    \n\
                    general {\n\
                    \x20   col.active_border = $activeBorderColor\n\
                    \x20   col.inactive_border = $inactiveBorderColor\n\
                    }\n\
                    \n\
                    group {\n\
                    \x20   col.border_active = $activeBorderColor\n\
                    \x20   col.border_inactive = $inactiveBorderColor\n\
                    }\n";
    assert_eq!(hyprland_conf(&p), expected);
}

#[test]
fn ghostty_and_walker_exact() {
    let p = ThemePalette::default();
    assert_eq!(
        ghostty_conf(&p),
        "# Generated by omarchy-theme-studio\nbackground = #1a1b26\nforeground = #c0caf5\n\
         cursor-color = #7aa2f7\nselection-background = #7aa2f7\nselection-foreground = #1a1b26\n"
    );
    assert_eq!(
        walker_css(&p),
        "/* Generated by omarchy-theme-studio */\n@define-color selected-text #7aa2f7;\n\
         @define-color text #c0caf5;\n@define-color base #1a1b26;\n@define-color border #7aa2f7;\n\
         @define-color foreground #c0caf5;\n@define-color background #1a1b26;\n"
    );
    assert_eq!(
        waybar_css(&p),
        "/* Generated by omarchy-theme-studio */\n@define-color foreground #c0caf5;\n\
         @define-color background #16161e;\n"
    );
}

#[test]
fn hyprlock_conf_exact() {
    let mut p = ThemePalette::default();
    p.background = RgbColor::new(0, 9, 100);
    p.accent = RgbColor::new(255, 10, 99);
    p.foreground = RgbColor::new(1, 2, 3);
    p.accent2 = RgbColor::new(200, 201, 202);
    assert_eq!(
        hyprlock_conf(&p),
        "# Generated by omarchy-theme-studio\n$color = rgba(0, 9, 100, 1.0)\n\
         $inner_color = rgba(0, 9, 100, 0.8)\n$outer_color = rgba(255, 10, 99, 1.0)\n\
         $font_color = rgba(1, 2, 3, 1.0)\n$placeholder_color = rgba(1, 2, 3, 0.7)\n\
         $check_color = rgba(200, 201, 202, 1.0)\n"
    );
}

#[test]
fn readme_lists_every_field() {
    let p = ThemePalette::default();
    let md = readme_md("night-owl", &p);
    assert!(md.starts_with("# night-owl\n\nAn Omarchy desktop theme generated by"));
    assert!(md.contains("```sh\nomarchy-theme-set night-owl\n```\n\n## Palette\n\n| Field | Color |\n| --- | --- |\n"));
    assert!(md.contains("| Background | `#1a1b26` |\n| Foreground | `#c0caf5` |\n"));
    assert!(md.ends_with("| Notification border | `#7aa2f7` |\n"));
    assert_eq!(md.matches("\n| ").count(), 19);
}

#[test]
fn config_errors_read_as_their_messages() {
    assert_eq!(ConfigError::Io("disk full".into()).message(), "IO error: disk full");
    assert_eq!(ConfigError::ThemeNotFound("x".into()).message(), "Theme not found: x");
    assert_eq!(ConfigError::Parse("eof".into()).message(), "Could not parse palette: eof");
    assert_eq!(ConfigError::Apply("exit 1".into()).message(), "Apply failed: exit 1");
}

#[test]
fn theme_directory_holds_every_omarchy_file() {
    let theme = Theme::new("dusk", ThemePalette::default());
    let files = theme_files(&theme);
    let names: Vec<&str> = files.iter().map(|(n, _)| n.as_str()).collect();
    assert_eq!(
        names,
        ["colors.toml", "hyprland.conf", "hyprlock.conf", "waybar.css", "walker.css", "ghostty.conf", "README.md"]
    );
    let p = &theme.palette;
    assert_eq!(files[0].1, colors_toml(p));
    assert_eq!(files[1].1, hyprland_conf(p));
    assert_eq!(files[2].1, hyprlock_conf(p));
    assert_eq!(files[3].1, waybar_css(p));
    assert_eq!(files[4].1, walker_css(p));
    assert_eq!(files[5].1, ghostty_conf(p));
    assert_eq!(files[6].1, readme_md("dusk", p));
}

#[test]
fn apply_failure_reports_code_and_last_stderr_line() {
    assert_eq!(
        apply_failure_text("omarchy-theme-set", Some(1), "warming up\nno such theme: x\n\n"),
        "omarchy-theme-set exited with 1: no such theme: x"
    );
    assert_eq!(apply_failure_text("omarchy-theme-set", Some(2), " \t\n "), "omarchy-theme-set exited with 2");
    assert_eq!(apply_failure_text("OTS_APPLY_CMD (x)", None, ""), "OTS_APPLY_CMD (x) exited with signal");
    assert_eq!(
        apply_failure_text("cmd", Some(-3), "\u{3000}oops\u{a0}"),
        "cmd exited with -3: oops"
    );
    assert_eq!(apply_failure_text("cmd", Some(i32::MIN), "a\r\nb"), "cmd exited with -2147483648: b");
    // The same text std's trim and lines give.
    let stderr = "\u{2003}first\r\nsecond line \u{85}";
    let tail = stderr.trim().lines().last().unwrap_or("");
    assert_eq!(apply_failure_text("cmd", Some(0), stderr), format!("cmd exited with 0: {tail}"));
}
