use omarchy_theme_studio::theme::presets::{builtins, get};
use omarchy_theme_studio::theme::{hex, PaletteField, PaletteGroup, RgbColor, Theme, ThemePalette};

#[test]
fn palette_field_get_set_round_trips() {
    let mut p = ThemePalette::default();
    for field in PaletteField::all() {
        let c = RgbColor::new(10, 20, 30);
        *field.get_mut(&mut p) = c;
        assert_eq!(field.get(&p), c, "field {:?} should round-trip", field);
    }
}

#[test]
fn hex_round_trips() {
    let c = hex("#7aa2f7");
    assert_eq!(c.to_hex(), "#7aa2f7");
    assert_eq!(c.to_hex_bare(), "7aa2f7");
}

#[test]
fn groups_partition_all_fields_in_order() {
    let concatenated: Vec<PaletteField> = PaletteGroup::all()
        .iter()
        .flat_map(|g| g.fields().iter().copied())
        .collect();
    assert_eq!(concatenated.as_slice(), PaletteField::all());
    // Every field maps back to the group that lists it.
    for g in PaletteGroup::all() {
        for f in g.fields() {
            assert_eq!(f.group(), *g, "field {f:?} should belong to {g:?}");
        }
    }
}

#[test]
fn builtins_are_unique_and_resolvable() {
    let names: Vec<_> = builtins().into_iter().map(|(n, _)| n).collect();
    for name in &names {
        assert!(get(name).is_some(), "{name} should resolve");
    }
    let mut sorted = names.clone();
    sorted.sort();
    sorted.dedup();
    assert_eq!(sorted.len(), names.len(), "preset names must be unique");
}

#[test]
fn from_hex_accepts_either_case_and_any_leading_hashes() {
    assert_eq!(RgbColor::from_hex("#AABBCC"), Some(RgbColor::new(0xaa, 0xbb, 0xcc)));
    assert_eq!(RgbColor::from_hex("aabbcc"), Some(RgbColor::new(0xaa, 0xbb, 0xcc)));
    assert_eq!(RgbColor::from_hex("##010203"), Some(RgbColor::new(1, 2, 3)));
    // from_str_radix takes a leading `+` on a single digit.
    assert_eq!(RgbColor::from_hex("#+f+f+f"), Some(RgbColor::new(15, 15, 15)));
}

#[test]
fn from_hex_rejects_bad_input() {
    assert_eq!(RgbColor::from_hex("#12345"), None);
    assert_eq!(RgbColor::from_hex("#1234567"), None);
    assert_eq!(RgbColor::from_hex("#12345g"), None);
    assert_eq!(RgbColor::from_hex("#-f0000"), None);
    assert_eq!(RgbColor::from_hex(""), None);
    // Six bytes, but not six ASCII digits: the first pair is not a number.
    assert_eq!(RgbColor::from_hex("ééé"), None);
    assert_eq!(RgbColor::from_hex("aé123"), None);
    assert_eq!(RgbColor::from_hex("#12é456"), None);
    assert_eq!(RgbColor::from_hex("##ab€f"), None);
    assert_eq!(RgbColor::from_hex("é12345"), None);
}

#[test]
fn hex_round_trips_for_every_channel_value() {
    for v in 0..=255u8 {
        let c = RgbColor::new(v, 255 - v, v / 2);
        assert_eq!(RgbColor::from_hex(&c.to_hex()), Some(c));
        assert_eq!(RgbColor::from_hex(&c.to_hex_bare()), Some(c));
    }
    assert_eq!(RgbColor::new(0, 10, 255).to_hex(), "#000aff");
}

#[test]
fn shade_clamps_each_channel() {
    let c = RgbColor::new(10, 128, 250);
    assert_eq!(c.shade(14), RgbColor::new(24, 142, 255));
    assert_eq!(c.shade(-14), RgbColor::new(0, 114, 236));
    assert_eq!(c.shade(0), c);
}

#[test]
fn saturating_add_uses_the_packed_value() {
    assert_eq!(RgbColor::new(0, 0, 5).saturating_add(-10), 0);
    assert_eq!(RgbColor::new(0, 0, 5).saturating_add(10), 15);
    assert_eq!(RgbColor::new(0, 1, 0).saturating_add(-1), 255);
    assert_eq!(RgbColor::new(0, 0, 250).saturating_add_unsigned(10), 255);
    assert_eq!(RgbColor::new(0, 0, 7).saturating_add_unsigned(3), 10);
    assert_eq!(i32::from(RgbColor::new(1, 2, 3)), 65536 + 512 + 3);
    assert_eq!(u8::from(RgbColor::new(9, 2, 3)), 9);
    assert_eq!(RgbColor::default(), RgbColor::new(0, 0, 0));
}

fn float_luminance(c: RgbColor) -> f32 {
    (0.2126 * f32::from(c.r) + 0.7152 * f32::from(c.g) + 0.0722 * f32::from(c.b)) / 255.0
}

#[test]
fn luminance_test_matches_the_float_formula_everywhere() {
    for r in 0..=255u8 {
        for g in 0..=255u8 {
            for b in 0..=255u8 {
                let c = RgbColor::new(r, g, b);
                assert_eq!(c.luminance_below_half(), float_luminance(c) < 0.5, "{c:?}");
            }
        }
    }
}

#[test]
fn default_palette_is_tokyo_night() {
    let p = ThemePalette::default();
    assert_eq!(get("tokyo-night"), Some(p));
    assert_eq!(p.background, hex("#1a1b26"));
    assert_eq!(p.foreground, hex("#c0caf5"));
    assert_eq!(p.accent, hex("#7aa2f7"));
    assert_eq!(p.accent2, hex("#bb9af7"));
    assert_eq!(p.inactive_border, hex("#292e42"));
    assert_eq!(p.waybar_background, hex("#16161e"));
    let t = Theme::default();
    assert_eq!(t.name, "untitled");
    assert_eq!(t.palette, p);
}

#[test]
fn presets_hold_their_published_colors() {
    let nord = get("nord").unwrap();
    assert_eq!(nord.background, hex("#2e3440"));
    assert_eq!(nord.notification_background, hex("#3b4252"));
    let gruvbox = get("gruvbox").unwrap();
    assert_eq!(gruvbox.accent2, hex("#b8bb26"));
    assert_eq!(gruvbox.waybar_background, hex("#1d2021"));
    let rose = get("rose-pine").unwrap();
    assert_eq!(rose.accent2, hex("#c4a7e7"));
    assert_eq!(rose.waybar_background, hex("#1f1d2e"));
    assert_eq!(get("solarized"), None);
    let names: Vec<&str> = builtins().into_iter().map(|(n, _)| n).collect();
    assert_eq!(names, vec!["tokyo-night", "nord", "gruvbox", "rose-pine"]);
}

#[test]
fn writing_one_field_leaves_the_others() {
    let base = ThemePalette::default();
    let c = RgbColor::new(1, 2, 3);
    for f in PaletteField::all() {
        let mut p = base;
        *f.get_mut(&mut p) = c;
        for g in PaletteField::all() {
            if g != f {
                assert_eq!(g.get(&p), g.get(&base));
            }
        }
    }
}

#[test]
fn labels_and_group_positions() {
    assert_eq!(PaletteField::LauncherSelectedBackground.label(), "Launcher selected bg");
    assert_eq!(PaletteGroup::Notification.label(), "Notification");
    for (i, g) in PaletteGroup::all().iter().enumerate() {
        assert_eq!(g.index(), i);
    }
    assert_eq!(PaletteField::all().len(), 17);
}

#[test]
fn theme_new_keeps_name_and_palette() {
    let p = get("nord").unwrap();
    let t = Theme::new("my-theme", p);
    assert_eq!(t.name, "my-theme");
    assert_eq!(t.palette, p);
    assert_eq!(t.clone(), t);
}

#[test]
fn hex_text_reads_back_in_lower_case() {
    let c = RgbColor::from_hex("7AA2F7").unwrap();
    assert_eq!(c, RgbColor::new(0x7a, 0xa2, 0xf7));
    assert_eq!(c.to_hex_bare(), "7aa2f7");
    assert_eq!(RgbColor::from_hex("###C0cAf5").unwrap().to_hex_bare(), "c0caf5");
}

#[test]
fn field_labels_are_distinct() {
    let labels: Vec<&str> = PaletteField::all().iter().map(|f| f.label()).collect();
    for (i, a) in labels.iter().enumerate() {
        for b in &labels[i + 1..] {
            assert_ne!(a, b);
        }
    }
    assert_eq!(PaletteField::Accent2.label(), "Accent 2");
    assert_eq!(PaletteField::LauncherSelectedBackground.label(), "Launcher selected bg");
}
