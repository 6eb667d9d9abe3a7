//! Built-in starter palettes, surfaced in the loader as `[B]` themes.
use vstd::prelude::*;
use super::{default_palette, rgb, RgbColor, ThemePalette};
use crate::text::str_equal;

verus! {

pub open spec fn nord_palette() -> ThemePalette {
    ThemePalette {
        background: rgb(0x2e, 0x34, 0x40),
        foreground: rgb(0xd8, 0xde, 0xe9),
        accent: rgb(0x88, 0xc0, 0xd0),
        accent2: rgb(0x81, 0xa1, 0xc1),
        active_border: rgb(0x88, 0xc0, 0xd0),
        inactive_border: rgb(0x3b, 0x42, 0x52),
        waybar_background: rgb(0x2e, 0x34, 0x40),
        waybar_foreground: rgb(0xd8, 0xde, 0xe9),
        waybar_active_workspace: rgb(0x88, 0xc0, 0xd0),
        launcher_background: rgb(0x2e, 0x34, 0x40),
        launcher_foreground: rgb(0xd8, 0xde, 0xe9),
        launcher_selected_background: rgb(0x88, 0xc0, 0xd0),
        launcher_selected_foreground: rgb(0x2e, 0x34, 0x40),
        terminal_background: rgb(0x2e, 0x34, 0x40),
        terminal_foreground: rgb(0xd8, 0xde, 0xe9),
        notification_background: rgb(0x3b, 0x42, 0x52),
        notification_border: rgb(0x88, 0xc0, 0xd0),
    }
}

pub open spec fn gruvbox_palette() -> ThemePalette {
    ThemePalette {
        background: rgb(0x28, 0x28, 0x28),
        foreground: rgb(0xeb, 0xdb, 0xb2),
        accent: rgb(0xfa, 0xbd, 0x2f),
        accent2: rgb(0xb8, 0xbb, 0x26),
        active_border: rgb(0xfa, 0xbd, 0x2f),
        inactive_border: rgb(0x3c, 0x38, 0x36),
        waybar_background: rgb(0x1d, 0x20, 0x21),
        waybar_foreground: rgb(0xeb, 0xdb, 0xb2),
        waybar_active_workspace: rgb(0xfa, 0xbd, 0x2f),
        launcher_background: rgb(0x28, 0x28, 0x28),
        launcher_foreground: rgb(0xeb, 0xdb, 0xb2),
        launcher_selected_background: rgb(0xfa, 0xbd, 0x2f),
        launcher_selected_foreground: rgb(0x28, 0x28, 0x28),
        terminal_background: rgb(0x28, 0x28, 0x28),
        terminal_foreground: rgb(0xeb, 0xdb, 0xb2),
        notification_background: rgb(0x3c, 0x38, 0x36),
        notification_border: rgb(0xfa, 0xbd, 0x2f),
    }
}

pub open spec fn rose_pine_palette() -> ThemePalette {
    ThemePalette {
        background: rgb(0x19, 0x17, 0x24),
        foreground: rgb(0xe0, 0xde, 0xf4),
        accent: rgb(0xeb, 0xbc, 0xba),
        accent2: rgb(0xc4, 0xa7, 0xe7),
        active_border: rgb(0xeb, 0xbc, 0xba),
        inactive_border: rgb(0x26, 0x23, 0x3a),
        waybar_background: rgb(0x1f, 0x1d, 0x2e),
        waybar_foreground: rgb(0xe0, 0xde, 0xf4),
        waybar_active_workspace: rgb(0xeb, 0xbc, 0xba),
        launcher_background: rgb(0x19, 0x17, 0x24),
        launcher_foreground: rgb(0xe0, 0xde, 0xf4),
        launcher_selected_background: rgb(0xeb, 0xbc, 0xba),
        launcher_selected_foreground: rgb(0x19, 0x17, 0x24),
        terminal_background: rgb(0x19, 0x17, 0x24),
        terminal_foreground: rgb(0xe0, 0xde, 0xf4),
        notification_background: rgb(0x26, 0x23, 0x3a),
        notification_border: rgb(0xeb, 0xbc, 0xba),
    }
}

/// The built-in presets, by name, in loader order.
pub open spec fn builtin_presets() -> Seq<(Seq<char>, ThemePalette)> {
    seq![
        ("tokyo-night"@, default_palette()),
        ("nord"@, nord_palette()),
        ("gruvbox"@, gruvbox_palette()),
        ("rose-pine"@, rose_pine_palette()),
    ]
}

/// The palette of the first preset whose name is `name`.
pub open spec fn preset_named(name: Seq<char>) -> Option<ThemePalette> {
    preset_named_from(builtin_presets(), name)
}

pub open spec fn preset_named_from(presets: Seq<(Seq<char>, ThemePalette)>, name: Seq<char>) -> Option<
    ThemePalette,
>
    decreases presets.len(),
{
    if presets.len() == 0 {
        None
    } else if presets[0].0 == name {
        Some(presets[0].1)
    } else {
        preset_named_from(presets.drop_first(), name)
    }
}

/// Built-in starter palettes, surfaced in the loader as `[B]` themes.
pub fn builtins() -> (r: Vec<(&'static str, ThemePalette)>)
    ensures
        r@.map_values(|e: (&'static str, ThemePalette)| (e.0@, e.1)) == builtin_presets(),
{
    let r = vec![
        ("tokyo-night", tokyo_night()),
        ("nord", nord()),
        ("gruvbox", gruvbox()),
        ("rose-pine", rose_pine()),
    ];
    assert(r@.map_values(|e: (&'static str, ThemePalette)| (e.0@, e.1)) =~= builtin_presets());
    r
}

/// Look up a built-in palette by name.
pub fn get(name: &str) -> (p: Option<ThemePalette>)
    ensures
        p == preset_named(name@),
{
    let all = builtins();
    let ghost specs = all@.map_values(|e: (&'static str, ThemePalette)| (e.0@, e.1));
    let mut i: usize = 0;
    assert(specs.skip(0) =~= specs);
    while i < all.len()
        invariant
            specs == all@.map_values(|e: (&'static str, ThemePalette)| (e.0@, e.1)),
            specs == builtin_presets(),
            i <= all.len(),
            preset_named(name@) == preset_named_from(specs.skip(i as int), name@),
        decreases all.len() - i,
    {
        let (n, pal) = all[i];
        proof {
            assert(specs.skip(i as int).drop_first() =~= specs.skip(i + 1));
            assert(specs.skip(i as int)[0] == specs[i as int]);
        }
        if str_equal(n, name) {
            return Some(pal);
        }
        i = i + 1;
    }
    None
}

fn tokyo_night() -> (p: ThemePalette)
    ensures
        p == default_palette(),
{
    // Matches ThemePalette::default(), kept explicit for clarity.
    ThemePalette::default()
}

fn nord() -> (p: ThemePalette)
    ensures
        p == nord_palette(),
{
    ThemePalette {
        background: RgbColor::new(0x2e, 0x34, 0x40),
        foreground: RgbColor::new(0xd8, 0xde, 0xe9),
        accent: RgbColor::new(0x88, 0xc0, 0xd0),
        accent2: RgbColor::new(0x81, 0xa1, 0xc1),
        active_border: RgbColor::new(0x88, 0xc0, 0xd0),
        inactive_border: RgbColor::new(0x3b, 0x42, 0x52),
        waybar_background: RgbColor::new(0x2e, 0x34, 0x40),
        waybar_foreground: RgbColor::new(0xd8, 0xde, 0xe9),
        waybar_active_workspace: RgbColor::new(0x88, 0xc0, 0xd0),
        launcher_background: RgbColor::new(0x2e, 0x34, 0x40),
        launcher_foreground: RgbColor::new(0xd8, 0xde, 0xe9),
        launcher_selected_background: RgbColor::new(0x88, 0xc0, 0xd0),
        launcher_selected_foreground: RgbColor::new(0x2e, 0x34, 0x40),
        terminal_background: RgbColor::new(0x2e, 0x34, 0x40),
        terminal_foreground: RgbColor::new(0xd8, 0xde, 0xe9),
        notification_background: RgbColor::new(0x3b, 0x42, 0x52),
        notification_border: RgbColor::new(0x88, 0xc0, 0xd0),
    }
}

fn gruvbox() -> (p: ThemePalette)
    ensures
        p == gruvbox_palette(),
{
    ThemePalette {
        background: RgbColor::new(0x28, 0x28, 0x28),
        foreground: RgbColor::new(0xeb, 0xdb, 0xb2),
        accent: RgbColor::new(0xfa, 0xbd, 0x2f),
        accent2: RgbColor::new(0xb8, 0xbb, 0x26),
        active_border: RgbColor::new(0xfa, 0xbd, 0x2f),
        inactive_border: RgbColor::new(0x3c, 0x38, 0x36),
        waybar_background: RgbColor::new(0x1d, 0x20, 0x21),
        waybar_foreground: RgbColor::new(0xeb, 0xdb, 0xb2),
        waybar_active_workspace: RgbColor::new(0xfa, 0xbd, 0x2f),
        launcher_background: RgbColor::new(0x28, 0x28, 0x28),
        launcher_foreground: RgbColor::new(0xeb, 0xdb, 0xb2),
        launcher_selected_background: RgbColor::new(0xfa, 0xbd, 0x2f),
        launcher_selected_foreground: RgbColor::new(0x28, 0x28, 0x28),
        terminal_background: RgbColor::new(0x28, 0x28, 0x28),
        terminal_foreground: RgbColor::new(0xeb, 0xdb, 0xb2),
        notification_background: RgbColor::new(0x3c, 0x38, 0x36),
        notification_border: RgbColor::new(0xfa, 0xbd, 0x2f),
    }
}

fn rose_pine() -> (p: ThemePalette)
    ensures
        p == rose_pine_palette(),
{
    ThemePalette {
        background: RgbColor::new(0x19, 0x17, 0x24),
        foreground: RgbColor::new(0xe0, 0xde, 0xf4),
        accent: RgbColor::new(0xeb, 0xbc, 0xba),
        accent2: RgbColor::new(0xc4, 0xa7, 0xe7),
        active_border: RgbColor::new(0xeb, 0xbc, 0xba),
        inactive_border: RgbColor::new(0x26, 0x23, 0x3a),
        waybar_background: RgbColor::new(0x1f, 0x1d, 0x2e),
        waybar_foreground: RgbColor::new(0xe0, 0xde, 0xf4),
        waybar_active_workspace: RgbColor::new(0xeb, 0xbc, 0xba),
        launcher_background: RgbColor::new(0x19, 0x17, 0x24),
        launcher_foreground: RgbColor::new(0xe0, 0xde, 0xf4),
        launcher_selected_background: RgbColor::new(0xeb, 0xbc, 0xba),
        launcher_selected_foreground: RgbColor::new(0x19, 0x17, 0x24),
        terminal_background: RgbColor::new(0x19, 0x17, 0x24),
        terminal_foreground: RgbColor::new(0xe0, 0xde, 0xf4),
        notification_background: RgbColor::new(0x26, 0x23, 0x3a),
        notification_border: RgbColor::new(0xeb, 0xbc, 0xba),
    }
}

/// Every preset name is different from the others, and looking a preset up
/// by its own name gives its palette.
pub proof fn lemma_builtins_unique_and_resolvable()
    ensures
        builtin_presets().len() == 4,
        forall|i: int, j: int|
            0 <= i < 4 && 0 <= j < 4 && i != j ==> builtin_presets()[i].0 != builtin_presets()[j].0,
        forall|i: int|
            0 <= i < 4 ==> preset_named(#[trigger] builtin_presets()[i].0) == Some(
                builtin_presets()[i].1,
            ),
{
    reveal_strlit("tokyo-night");
    reveal_strlit("nord");
    reveal_strlit("gruvbox");
    reveal_strlit("rose-pine");
    let p = builtin_presets();
    assert(p[0].0.len() == 11);
    assert(p[1].0.len() == 4);
    assert(p[2].0.len() == 7);
    assert(p[3].0.len() == 9);
    assert(p[0].0 != p[1].0);
    assert(p[0].0 != p[2].0);
    assert(p[0].0 != p[3].0);
    assert(p[1].0 != p[2].0);
    assert(p[1].0 != p[3].0);
    assert(p[2].0 != p[3].0);
    reveal_with_fuel(preset_named_from, 5);
    assert(p.drop_first().drop_first().drop_first().drop_first().len() == 0);
}

/// The `tokyo-night` preset is the default palette.
pub proof fn lemma_tokyo_night_is_default()
    ensures
        preset_named("tokyo-night"@) == Some(default_palette()),
{
}

} // verus!
