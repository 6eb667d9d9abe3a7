use omarchy_theme_studio::cli::{export_plan, invocation, ExportPlan, Invocation};
use omarchy_theme_studio::theme::presets::get;
use omarchy_theme_studio::theme::ThemePalette;

fn args(list: &[&str]) -> Vec<String> {
    list.iter().map(|s| s.to_string()).collect()
}

#[test]
fn first_argument_picks_the_mode() {
    assert_eq!(invocation(&args(&[])), Invocation::Editor);
    assert_eq!(invocation(&args(&["export", "x"])), Invocation::Export);
    assert_eq!(invocation(&args(&["-h"])), Invocation::Help);
    assert_eq!(invocation(&args(&["--help", "export"])), Invocation::Help);
    assert_eq!(invocation(&args(&["exports"])), Invocation::Editor);
    assert_eq!(invocation(&args(&["x", "export"])), Invocation::Editor);
}

#[test]
fn export_needs_a_usable_name() {
    assert!(matches!(export_plan(&args(&[])), ExportPlan::Usage));
    assert!(matches!(export_plan(&args(&["  --  "])), ExportPlan::EmptyName));
    // The name is refused before the preset is looked at.
    assert!(matches!(export_plan(&args(&["!!", "nope"])), ExportPlan::EmptyName));
}

#[test]
fn export_uses_the_named_preset_or_the_default() {
    match export_plan(&args(&["My Nord", "nord"])) {
        ExportPlan::Write(t) => {
            assert_eq!(t.name, "my-nord");
            assert_eq!(t.palette, get("nord").unwrap());
        }
        _ => panic!("expected a theme to write"),
    }
    match export_plan(&args(&["plain"])) {
        ExportPlan::Write(t) => {
            assert_eq!(t.name, "plain");
            assert_eq!(t.palette, ThemePalette::default());
        }
        _ => panic!("expected a theme to write"),
    }
    match export_plan(&args(&["mine", "solarized"])) {
        ExportPlan::UnknownPreset(m) => assert_eq!(
            m,
            "unknown preset 'solarized' (available: tokyo-night, nord, gruvbox, rose-pine)"
        ),
        _ => panic!("expected a refusal"),
    }
}
