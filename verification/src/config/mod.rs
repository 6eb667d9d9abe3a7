//! The Omarchy theme files: what each generated file holds for a palette, and
//! the error values that reading and writing theme directories report.
use vstd::prelude::*;
use crate::text::{decimal_u8, decimal_usize, push_decimal_u8, push_decimal_usize};
use crate::theme::{
    all_fields, hex_bare_string, hex_string, luminance_below_half_spec, rgb, shade_channel,
    PaletteField, RgbColor, Theme, ThemePalette,
};

verus! {

/// Why reading, writing or applying a theme directory failed. An I/O failure
/// carries the operating system's description of it.
#[derive(Debug, PartialEq, Eq)]
pub enum ConfigError {
    Io(String),
    ThemeNotFound(String),
    Parse(String),
    Apply(String),
}

/// The text shown for an error.
pub open spec fn error_text(e: ConfigError) -> Seq<char> {
    match e {
        ConfigError::Io(m) => "IO error: "@ + m@,
        ConfigError::ThemeNotFound(m) => "Theme not found: "@ + m@,
        ConfigError::Parse(m) => "Could not parse palette: "@ + m@,
        ConfigError::Apply(m) => "Apply failed: "@ + m@,
    }
}

impl Clone for ConfigError {
    fn clone(&self) -> (e: Self)
        ensures
            e == *self,
    {
        match self {
            ConfigError::Io(m) => ConfigError::Io(m.clone()),
            ConfigError::ThemeNotFound(m) => ConfigError::ThemeNotFound(m.clone()),
            ConfigError::Parse(m) => ConfigError::Parse(m.clone()),
            ConfigError::Apply(m) => ConfigError::Apply(m.clone()),
        }
    }
}

impl ConfigError {
    /// The text shown for this error.
    pub fn message(&self) -> (s: String)
        ensures
            s@ == error_text(*self),
    {
        let mut s;
        let detail: &String;
        match self {
            ConfigError::Io(m) => {
                s = String::from_str("IO error: ");
                detail = m;
            },
            ConfigError::ThemeNotFound(m) => {
                s = String::from_str("Theme not found: ");
                detail = m;
            },
            ConfigError::Parse(m) => {
                s = String::from_str("Could not parse palette: ");
                detail = m;
            },
            ConfigError::Apply(m) => {
                s = String::from_str("Apply failed: ");
                detail = m;
            },
        }
        s.append(detail.as_str());
        s
    }
}

// ── What each file holds ─────────────────────────────────────────────────────

/// `c` lightened (positive) or darkened (negative) by `amount` per channel.
pub open spec fn shaded(c: RgbColor, amount: i16) -> RgbColor {
    rgb(shade_channel(c.r, amount), shade_channel(c.g, amount), shade_channel(c.b, amount))
}

/// One `key = "#rrggbb"` line of `colors.toml`.
pub open spec fn toml_entry(key: Seq<char>, c: RgbColor) -> Seq<char> {
    key + " = \""@ + hex_string(c) + "\"\n"@
}

/// The first surface step: background lifted by 14 on a dark background,
/// lowered by 14 on a light one.
pub open spec fn surface_color(p: ThemePalette) -> RgbColor {
    if luminance_below_half_spec(p.background) {
        shaded(p.background, 14i16)
    } else {
        shaded(p.background, -14i16)
    }
}

/// The second surface step, 28 away from the background.
pub open spec fn surface_alt_color(p: ThemePalette) -> RgbColor {
    if luminance_below_half_spec(p.background) {
        shaded(p.background, 28i16)
    } else {
        shaded(p.background, -28i16)
    }
}

/// `colors.toml`: the canonical Omarchy palette.
pub open spec fn colors_toml_text(p: ThemePalette) -> Seq<char> {
    "# Generated by omarchy-theme-studio\n"@ + "[palette]\n"@ + toml_entry("background"@, p.background)
        + toml_entry("foreground"@, p.foreground) + toml_entry("text"@, p.foreground) + toml_entry(
        "accent"@,
        p.accent,
    ) + toml_entry("accent_alt"@, p.accent2) + toml_entry("surface"@, surface_color(p))
        + toml_entry("surface_alt"@, surface_alt_color(p))
}

/// `hyprland.conf`: border colors in Hyprland's bare `rgb(rrggbb)` form.
pub open spec fn hyprland_conf_text(p: ThemePalette) -> Seq<char> {
    "# Generated by omarchy-theme-studio\n$activeBorderColor = rgb("@ + hex_bare_string(
        p.active_border,
    ) + ")\n$inactiveBorderColor = rgb("@ + hex_bare_string(p.inactive_border) + HYPRLAND_TAIL@
}

/// `waybar.css`: only the two `@define-color` values the Waybar layout uses.
pub open spec fn waybar_css_text(p: ThemePalette) -> Seq<char> {
    "/* Generated by omarchy-theme-studio */\n@define-color foreground "@ + hex_string(
        p.waybar_foreground,
    ) + ";\n@define-color background "@ + hex_string(p.waybar_background) + ";\n"@
}

/// `walker.css`: the named colors walker's layout references.
pub open spec fn walker_css_text(p: ThemePalette) -> Seq<char> {
    "/* Generated by omarchy-theme-studio */\n@define-color selected-text "@ + hex_string(
        p.launcher_selected_background,
    ) + ";\n@define-color text "@ + hex_string(p.launcher_foreground) + ";\n@define-color base "@
        + hex_string(p.launcher_background) + ";\n@define-color border "@ + hex_string(p.accent)
        + ";\n@define-color foreground "@ + hex_string(p.launcher_foreground)
        + ";\n@define-color background "@ + hex_string(p.launcher_background) + ";\n"@
}

/// `r, g, b` in decimal, as Hyprland's `rgba()` takes them.
pub open spec fn decimal_triple(c: RgbColor) -> Seq<char> {
    decimal_u8(c.r) + ", "@ + decimal_u8(c.g) + ", "@ + decimal_u8(c.b)
}

/// `hyprlock.conf`: lock screen colors as decimal `rgba()` values.
pub open spec fn hyprlock_conf_text(p: ThemePalette) -> Seq<char> {
    "# Generated by omarchy-theme-studio\n$color = rgba("@ + decimal_triple(p.background)
        + ", 1.0)\n$inner_color = rgba("@ + decimal_triple(p.background)
        + ", 0.8)\n$outer_color = rgba("@ + decimal_triple(p.accent) + ", 1.0)\n$font_color = rgba("@
        + decimal_triple(p.foreground) + ", 1.0)\n$placeholder_color = rgba("@ + decimal_triple(
        p.foreground,
    ) + ", 0.7)\n$check_color = rgba("@ + decimal_triple(p.accent2) + ", 1.0)\n"@
}

/// `ghostty.conf`: terminal background, foreground, cursor and selection.
pub open spec fn ghostty_conf_text(p: ThemePalette) -> Seq<char> {
    "# Generated by omarchy-theme-studio\nbackground = "@ + hex_string(p.terminal_background)
        + "\nforeground = "@ + hex_string(p.terminal_foreground) + "\ncursor-color = "@ + hex_string(
        p.accent,
    ) + "\nselection-background = "@ + hex_string(p.accent) + "\nselection-foreground = "@
        + hex_string(p.terminal_background) + "\n"@
}

/// One row of the README palette table.
pub open spec fn readme_row(label: Seq<char>, c: RgbColor) -> Seq<char> {
    "| "@ + label + " | `"@ + hex_string(c) + "` |\n"@
}

/// The README palette table rows for the first `n` fields.
pub open spec fn readme_rows(p: ThemePalette, n: int) -> Seq<char>
    decreases n,
{
    if n <= 0 {
        Seq::empty()
    } else {
        readme_rows(p, n - 1) + readme_row(all_fields()[n - 1].label_spec(), all_fields()[n - 1].value_in(p))
    }
}

/// `README.md`: install instructions and a table of every field's color.
pub open spec fn readme_md_text(name: Seq<char>, p: ThemePalette) -> Seq<char> {
    "# "@ + name + README_INTRO@ + name + README_TABLE_HEAD@ + readme_rows(p, 17)
}

pub const HYPRLAND_TAIL: &'static str = ")\n\ngeneral {\n    col.active_border = $activeBorderColor\n    col.inactive_border = $inactiveBorderColor\n}\n\ngroup {\n    col.border_active = $activeBorderColor\n    col.border_inactive = $inactiveBorderColor\n}\n";

pub const README_INTRO: &'static str = "\n\nAn Omarchy desktop theme generated by [omarchy-theme-studio](https://github.com/allisonhere/omarchy-theme-studio).\n\nInstall by copying this directory into `~/.config/omarchy/themes/` and running:\n\n```sh\nomarchy-theme-set ";

pub const README_TABLE_HEAD: &'static str = "\n```\n\n## Palette\n\n| Field | Color |\n| --- | --- |\n";

// ── Generators ───────────────────────────────────────────────────────────────

fn push_hex(s: &mut String, c: RgbColor)
    ensures
        final(s)@ == old(s)@ + hex_string(c),
{
    let h = c.to_hex();
    s.append(h.as_str());
}

fn push_bare_hex(s: &mut String, c: RgbColor)
    ensures
        final(s)@ == old(s)@ + hex_bare_string(c),
{
    let h = c.to_hex_bare();
    s.append(h.as_str());
}

fn push_toml_entry(s: &mut String, key: &str, c: RgbColor)
    ensures
        final(s)@ == old(s)@ + toml_entry(key@, c),
{
    s.append(key);
    s.append(" = \"");
    push_hex(s, c);
    s.append("\"\n");
    assert(final(s)@ =~= old(s)@ + toml_entry(key@, c));
}

/// Canonical Omarchy palette. `omarchy-theme-set-templates` reads this to fill
/// `{{ key }}` placeholders and derive btop/neovim/etc colors. Two surface
/// colors are derived from the background so downstream apps get a depth ramp.
pub fn colors_toml(p: &ThemePalette) -> (s: String)
    ensures
        s@ == colors_toml_text(*p),
{
    let lighter = p.background.luminance_below_half();
    let surface = if lighter {
        p.background.shade(14)
    } else {
        p.background.shade(-14)
    };
    let surface_alt = if lighter {
        p.background.shade(28)
    } else {
        p.background.shade(-28)
    };
    let mut s = String::new();
    s.append("# Generated by omarchy-theme-studio\n");
    s.append("[palette]\n");
    push_toml_entry(&mut s, "background", p.background);
    push_toml_entry(&mut s, "foreground", p.foreground);
    push_toml_entry(&mut s, "text", p.foreground);
    push_toml_entry(&mut s, "accent", p.accent);
    push_toml_entry(&mut s, "accent_alt", p.accent2);
    push_toml_entry(&mut s, "surface", surface);
    push_toml_entry(&mut s, "surface_alt", surface_alt);
    assert(s@ =~= colors_toml_text(*p));
    s
}

/// Hyprland border colors, in its `rgb(RRGGBB)` form (no `#`).
pub fn hyprland_conf(p: &ThemePalette) -> (s: String)
    ensures
        s@ == hyprland_conf_text(*p),
{
    let mut s = String::from_str("# Generated by omarchy-theme-studio\n$activeBorderColor = rgb(");
    push_bare_hex(&mut s, p.active_border);
    s.append(")\n$inactiveBorderColor = rgb(");
    push_bare_hex(&mut s, p.inactive_border);
    s.append(HYPRLAND_TAIL);
    assert(s@ =~= hyprland_conf_text(*p));
    s
}

/// Waybar's style layer references named colors; an Omarchy theme only
/// supplies the `@define-color` values (just foreground/background). The
/// active-workspace accent is driven by Omarchy from `colors.toml`'s `accent`.
pub fn waybar_css(p: &ThemePalette) -> (s: String)
    ensures
        s@ == waybar_css_text(*p),
{
    let mut s = String::from_str("/* Generated by omarchy-theme-studio */\n@define-color foreground ");
    push_hex(&mut s, p.waybar_foreground);
    s.append(";\n@define-color background ");
    push_hex(&mut s, p.waybar_background);
    s.append(";\n");
    assert(s@ =~= waybar_css_text(*p));
    s
}

/// walker reads named colors from its own layout CSS, so a theme provides only
/// these `@define-color` values. `selected-text` is the selection highlight.
pub fn walker_css(p: &ThemePalette) -> (s: String)
    ensures
        s@ == walker_css_text(*p),
{
    let mut s = String::from_str("/* Generated by omarchy-theme-studio */\n@define-color selected-text ");
    push_hex(&mut s, p.launcher_selected_background);
    s.append(";\n@define-color text ");
    push_hex(&mut s, p.launcher_foreground);
    s.append(";\n@define-color base ");
    push_hex(&mut s, p.launcher_background);
    s.append(";\n@define-color border ");
    push_hex(&mut s, p.accent);
    s.append(";\n@define-color foreground ");
    push_hex(&mut s, p.launcher_foreground);
    s.append(";\n@define-color background ");
    push_hex(&mut s, p.launcher_background);
    s.append(";\n");
    assert(s@ =~= walker_css_text(*p));
    s
}

fn push_decimal_triple(s: &mut String, c: RgbColor)
    ensures
        final(s)@ == old(s)@ + decimal_triple(c),
{
    push_decimal_u8(s, c.r);
    s.append(", ");
    push_decimal_u8(s, c.g);
    s.append(", ");
    push_decimal_u8(s, c.b);
    assert(final(s)@ =~= old(s)@ + decimal_triple(c));
}

/// Hyprlock (lock screen) colors. Hyprland's `rgba()` takes decimal channels.
pub fn hyprlock_conf(p: &ThemePalette) -> (s: String)
    ensures
        s@ == hyprlock_conf_text(*p),
{
    let mut s = String::from_str("# Generated by omarchy-theme-studio\n$color = rgba(");
    push_decimal_triple(&mut s, p.background);
    s.append(", 1.0)\n$inner_color = rgba(");
    push_decimal_triple(&mut s, p.background);
    s.append(", 0.8)\n$outer_color = rgba(");
    push_decimal_triple(&mut s, p.accent);
    s.append(", 1.0)\n$font_color = rgba(");
    push_decimal_triple(&mut s, p.foreground);
    s.append(", 1.0)\n$placeholder_color = rgba(");
    push_decimal_triple(&mut s, p.foreground);
    s.append(", 0.7)\n$check_color = rgba(");
    push_decimal_triple(&mut s, p.accent2);
    s.append(", 1.0)\n");
    assert(s@ =~= hyprlock_conf_text(*p));
    s
}

/// Terminal colors for ghostty.
pub fn ghostty_conf(p: &ThemePalette) -> (s: String)
    ensures
        s@ == ghostty_conf_text(*p),
{
    let mut s = String::from_str("# Generated by omarchy-theme-studio\nbackground = ");
    push_hex(&mut s, p.terminal_background);
    s.append("\nforeground = ");
    push_hex(&mut s, p.terminal_foreground);
    s.append("\ncursor-color = ");
    push_hex(&mut s, p.accent);
    s.append("\nselection-background = ");
    push_hex(&mut s, p.accent);
    s.append("\nselection-foreground = ");
    push_hex(&mut s, p.terminal_background);
    s.append("\n");
    assert(s@ =~= ghostty_conf_text(*p));
    s
}

/// A palette reference for the theme, with install instructions.
pub fn readme_md(name: &str, p: &ThemePalette) -> (s: String)
    ensures
        s@ == readme_md_text(name@, *p),
{
    let mut s = String::from_str("# ");
    s.append(name);
    s.append(README_INTRO);
    s.append(name);
    s.append(README_TABLE_HEAD);
    let ghost head = s@;
    let fields = PaletteField::all();
    let mut i: usize = 0;
    while i < fields.len()
        invariant
            fields@ == all_fields(),
            i <= fields.len(),
            s@ == head + readme_rows(*p, i as int),
        decreases fields.len() - i,
    {
        let f = fields[i];
        s.append("| ");
        s.append(f.label());
        s.append(" | `");
        push_hex(&mut s, f.get(p));
        s.append("` |\n");
        assert(s@ =~= head + readme_rows(*p, i + 1));
        i = i + 1;
    }
    assert(s@ =~= readme_md_text(name@, *p));
    s
}

// ── A theme directory ────────────────────────────────────────────────────────

/// The names of a theme directory's files besides `palette.json`, in the
/// order they are written.
pub open spec fn theme_file_names() -> Seq<Seq<char>> {
    seq![
        "colors.toml"@,
        "hyprland.conf"@,
        "hyprlock.conf"@,
        "waybar.css"@,
        "walker.css"@,
        "ghostty.conf"@,
        "README.md"@,
    ]
}

/// The files of a theme directory besides `palette.json`, in the order they
/// are written: each file's name and contents.
pub open spec fn theme_files_spec(t: Theme) -> Seq<(Seq<char>, Seq<char>)> {
    seq![
        ("colors.toml"@, colors_toml_text(t.palette)),
        ("hyprland.conf"@, hyprland_conf_text(t.palette)),
        ("hyprlock.conf"@, hyprlock_conf_text(t.palette)),
        ("waybar.css"@, waybar_css_text(t.palette)),
        ("walker.css"@, walker_css_text(t.palette)),
        ("ghostty.conf"@, ghostty_conf_text(t.palette)),
        ("README.md"@, readme_md_text(t.name@, t.palette)),
    ]
}

/// What a list of files holds: each file's name and contents.
pub open spec fn file_texts(files: Seq<(String, String)>) -> Seq<(Seq<char>, Seq<char>)> {
    files.map_values(|f: (String, String)| (f.0@, f.1@))
}

/// The files of the theme's directory besides `palette.json`, with their
/// contents, in the order they are written.
pub fn theme_files(t: &Theme) -> (files: Vec<(String, String)>)
    ensures
        file_texts(files@) == theme_files_spec(*t),
        files@.len() == theme_file_names().len(),
        forall|k: int| 0 <= k < files@.len() ==> #[trigger] files@[k].0@ == theme_file_names()[k],
{
    let p = &t.palette;
    let colors = colors_toml(p);
    let hyprland = hyprland_conf(p);
    let hyprlock = hyprlock_conf(p);
    let waybar = waybar_css(p);
    let walker = walker_css(p);
    let ghostty = ghostty_conf(p);
    let readme = readme_md(t.name.as_str(), p);
    let ghost want = theme_files_spec(*t);
    let files = vec![
        (String::from_str("colors.toml"), colors),
        (String::from_str("hyprland.conf"), hyprland),
        (String::from_str("hyprlock.conf"), hyprlock),
        (String::from_str("waybar.css"), waybar),
        (String::from_str("walker.css"), walker),
        (String::from_str("ghostty.conf"), ghostty),
        (String::from_str("README.md"), readme),
    ];
    assert(file_texts(files@) =~= want);
    assert forall|k: int| 0 <= k < files@.len() implies #[trigger] files@[k].0@ == theme_file_names()[k] by {
        assert(file_texts(files@)[k].0 == want[k].0);
    }
    files
}

// ── Apply failures ───────────────────────────────────────────────────────────

/// Unicode's White_Space characters, which `str::trim` removes.
pub open spec fn is_unicode_space(c: char) -> bool {
    ||| ('\u{9}' <= c && c <= '\u{d}')
    ||| c == ' '
    ||| c == '\u{85}'
    ||| c == '\u{a0}'
    ||| c == '\u{1680}'
    ||| ('\u{2000}' <= c && c <= '\u{200a}')
    ||| c == '\u{2028}'
    ||| c == '\u{2029}'
    ||| c == '\u{202f}'
    ||| c == '\u{205f}'
    ||| c == '\u{3000}'
}

fn unicode_space(c: char) -> (b: bool)
    ensures
        b == is_unicode_space(c),
{
    ('\u{9}' <= c && c <= '\u{d}') || c == ' ' || c == '\u{85}' || c == '\u{a0}' || c == '\u{1680}'
        || ('\u{2000}' <= c && c <= '\u{200a}') || c == '\u{2028}' || c == '\u{2029}' || c == '\u{202f}'
        || c == '\u{205f}' || c == '\u{3000}'
}

/// `s` without the White_Space at either end.
pub open spec fn trimmed(s: Seq<char>) -> Seq<char> {
    let start = choose_start(s, 0);
    let end = choose_end(s, s.len() as int);
    if start < end {
        s.subrange(start, end)
    } else {
        Seq::empty()
    }
}

/// The first position at or after `i` that is not White_Space (or the end).
pub open spec fn choose_start(s: Seq<char>, i: int) -> int
    decreases s.len() - i,
{
    if i < s.len() && is_unicode_space(s[i]) {
        choose_start(s, i + 1)
    } else {
        i
    }
}

/// The end of `s` less the White_Space before position `j`.
pub open spec fn choose_end(s: Seq<char>, j: int) -> int
    decreases j,
{
    if j > 0 && is_unicode_space(s[j - 1]) {
        choose_end(s, j - 1)
    } else {
        j
    }
}

/// The last line of `s`: what follows its last newline.
pub open spec fn last_line(s: Seq<char>) -> Seq<char>
    decreases s.len(),
{
    if s.len() == 0 || s.last() == '\n' {
        Seq::empty()
    } else {
        last_line(s.drop_last()).push(s.last())
    }
}

/// A process exit code in decimal, or `signal` when the process was killed.
pub open spec fn exit_code_text(code: Option<i32>) -> Seq<char> {
    match code {
        None => "signal"@,
        Some(c) => if c < 0 {
            "-"@ + decimal_usize((-c) as nat)
        } else {
            decimal_usize(c as nat)
        },
    }
}

/// The report of an apply command that failed: the command, its exit code,
/// and the last line of what it wrote to stderr, if anything.
pub open spec fn apply_failure_spec(label: Seq<char>, code: Option<i32>, stderr: Seq<char>) -> Seq<char> {
    let tail = last_line(trimmed(stderr));
    label + " exited with "@ + exit_code_text(code) + if tail.len() == 0 {
        Seq::empty()
    } else {
        ": "@ + tail
    }
}

/// The report of an apply command `label` that exited with `code` (none
/// when a signal ended it) after writing `stderr`.
pub fn apply_failure_text(label: &str, code: Option<i32>, stderr: &str) -> (s: String)
    ensures
        s@ == apply_failure_spec(label@, code, stderr@),
{
    let cs = crate::text::chars_of(stderr);
    let mut start: usize = 0;
    while start < cs.len() && unicode_space(cs[start])
        invariant
            cs@ == stderr@,
            start <= cs.len(),
            choose_start(stderr@, 0) == choose_start(stderr@, start as int),
        decreases cs.len() - start,
    {
        start = start + 1;
    }
    let mut end: usize = cs.len();
    while end > 0 && unicode_space(cs[end - 1])
        invariant
            cs@ == stderr@,
            end <= cs.len(),
            choose_end(stderr@, stderr@.len() as int) == choose_end(stderr@, end as int),
        decreases end,
    {
        end = end - 1;
    }
    let ghost t = trimmed(stderr@);
    assert(choose_start(stderr@, start as int) == start);
    assert(choose_end(stderr@, end as int) == end);
    let mut tail = String::new();
    if start < end {
        assert(t =~= stderr@.subrange(start as int, end as int));
        // The last line starts after the last newline of the trimmed text.
        let mut from: usize = end;
        while from > start && cs[from - 1] != '\n'
            invariant
                cs@ == stderr@,
                start < end <= cs.len(),
                start <= from <= end,
                t == stderr@.subrange(start as int, end as int),
                last_line(t) == last_line(stderr@.subrange(start as int, from as int))
                    + stderr@.subrange(from as int, end as int),
            decreases from,
        {
            proof {
                let a = stderr@.subrange(start as int, from as int);
                assert(a.drop_last() =~= stderr@.subrange(start as int, from - 1));
                assert(a.last() == stderr@[from - 1]);
                assert(seq![a.last()] + stderr@.subrange(from as int, end as int) =~= stderr@.subrange(
                    from - 1,
                    end as int,
                ));
                assert(last_line(a) == last_line(a.drop_last()).push(a.last()));
                assert(last_line(a.drop_last()).push(a.last()) + stderr@.subrange(from as int, end as int)
                    =~= last_line(a.drop_last()) + stderr@.subrange(from - 1, end as int));
            }
            from = from - 1;
        }
        let mut k: usize = from;
        while k < end
            invariant
                cs@ == stderr@,
                from <= k <= end <= cs.len(),
                tail@ == stderr@.subrange(from as int, k as int),
            decreases end - k,
        {
            tail.push(cs[k]);
            assert(stderr@.subrange(from as int, k + 1) =~= stderr@.subrange(from as int, k as int).push(
                stderr@[k as int],
            ));
            k = k + 1;
        }
        proof {
            let a = stderr@.subrange(start as int, from as int);
            assert(a.len() == 0 || a.last() == '\n');
            assert(last_line(a) =~= Seq::<char>::empty());
            assert(last_line(t) =~= tail@);
        }
    } else {
        assert(t =~= Seq::<char>::empty());
    }
    let mut s = String::from_str(label);
    s.append(" exited with ");
    match code {
        None => s.append("signal"),
        Some(c) => {
            if c < 0 {
                s.append("-");
                let magnitude: i64 = 0i64 - (c as i64);
                push_decimal_usize(&mut s, magnitude as usize);
            } else {
                push_decimal_usize(&mut s, c as usize);
            }
        },
    }
    if tail.as_str().unicode_len() > 0 {
        s.append(": ");
        s.append(tail.as_str());
    }
    s
}

// ── Laws of the theme files ──────────────────────────────────────────────────

/// `colors.toml` gives Omarchy the palette's own accent: it holds the line
/// `accent = "<accent as #rrggbb>"`, at the start of a line, and the active
/// border (which has its own file) has no bearing on it.
pub proof fn lemma_colors_toml_accent(p: ThemePalette, border: RgbColor)
    ensures
        exists|pre: Seq<char>, post: Seq<char>|
            pre.len() > 0 && pre.last() == '\n' && #[trigger] colors_toml_text(p) == pre + "accent = \""@
                + hex_string(p.accent) + "\"\n"@ + post,
        colors_toml_text(ThemePalette { active_border: border, ..p }) == colors_toml_text(p),
{
    reveal_strlit("accent");
    reveal_strlit(" = \"");
    reveal_strlit("accent = \"");
    reveal_strlit("\"\n");
    let pre = "# Generated by omarchy-theme-studio\n"@ + "[palette]\n"@ + toml_entry("background"@, p.background)
        + toml_entry("foreground"@, p.foreground) + toml_entry("text"@, p.foreground);
    let post = toml_entry("accent_alt"@, p.accent2) + toml_entry("surface"@, surface_color(p))
        + toml_entry("surface_alt"@, surface_alt_color(p));
    assert("accent"@ + " = \""@ =~= "accent = \""@);
    assert(toml_entry("accent"@, p.accent) =~= "accent = \""@ + hex_string(p.accent) + "\"\n"@);
    assert(colors_toml_text(p) =~= pre + "accent = \""@ + hex_string(p.accent) + "\"\n"@ + post);
    assert(pre.last() == ("\"\n"@).last());
}

/// `waybar.css` is drawn from the bar's own colors alone: it defines
/// `foreground` as the bar's foreground, and two palettes with the same bar
/// colors give the same file, whatever the desktop's foreground and the
/// rest.
pub proof fn lemma_waybar_css_uses_bar_colors(p: ThemePalette, q: ThemePalette)
    ensures
        exists|post: Seq<char>|
            #[trigger] waybar_css_text(p) == "/* Generated by omarchy-theme-studio */\n"@
                + "@define-color foreground "@ + hex_string(p.waybar_foreground) + ";\n"@ + post,
        q.waybar_foreground == p.waybar_foreground && q.waybar_background == p.waybar_background
            ==> waybar_css_text(q) == waybar_css_text(p),
{
    reveal_strlit("/* Generated by omarchy-theme-studio */\n@define-color foreground ");
    reveal_strlit("/* Generated by omarchy-theme-studio */\n");
    reveal_strlit("@define-color foreground ");
    reveal_strlit(";\n@define-color background ");
    reveal_strlit(";\n");
    let post = "@define-color background "@ + hex_string(p.waybar_background) + ";\n"@;
    reveal_strlit("@define-color background ");
    assert("/* Generated by omarchy-theme-studio */\n"@ + "@define-color foreground "@
        =~= "/* Generated by omarchy-theme-studio */\n@define-color foreground "@);
    assert(";\n"@ + "@define-color background "@ =~= ";\n@define-color background "@);
    assert(waybar_css_text(p) =~= "/* Generated by omarchy-theme-studio */\n"@ + "@define-color foreground "@
        + hex_string(p.waybar_foreground) + ";\n"@ + post);
}

/// `line` stands in `text` as a whole line: it starts at the beginning of
/// `text` or just after a line break.
pub open spec fn has_line(text: Seq<char>, line: Seq<char>) -> bool {
    exists|i: int|
        0 <= i && i + line.len() <= text.len() && (i == 0 || text[i - 1] == '\n')
            && #[trigger] text.subrange(i, i + line.len()) == line
}

/// A piece put right after a line break (or first) ends the text as a line.
proof fn lemma_line_last(before: Seq<char>, line: Seq<char>)
    requires
        before.len() == 0 || before.last() == '\n',
    ensures
        has_line(before + line, line),
        line.len() > 0 ==> (before + line).last() == line.last(),
{
    let t = before + line;
    assert(t.subrange(before.len() as int, t.len() as int) =~= line);
    if before.len() > 0 {
        assert(t[before.len() - 1] == before.last());
    }
}

/// The lines of a text stay lines when more is written after it.
proof fn lemma_lines_kept(text: Seq<char>, more: Seq<char>)
    ensures
        forall|line: Seq<char>| #[trigger] has_line(text, line) ==> has_line(text + more, line),
{
    assert forall|line: Seq<char>| #[trigger] has_line(text, line) implies has_line(text + more, line) by {
        let i = choose|i: int|
            0 <= i && i + line.len() <= text.len() && (i == 0 || text[i - 1] == '\n')
                && #[trigger] text.subrange(i, i + line.len()) == line;
        let t = text + more;
        assert(t.subrange(i, i + line.len()) =~= text.subrange(i, i + line.len()));
        if i > 0 {
            assert(t[i - 1] == text[i - 1]);
        }
    }
}

/// A `colors.toml` entry, as the line `key = "#rrggbb"`.
proof fn lemma_toml_entry_line(before: Seq<char>, key: Seq<char>, head: Seq<char>, c: RgbColor)
    requires
        before.len() == 0 || before.last() == '\n',
        head == key + " = \""@,
    ensures
        has_line(before + toml_entry(key, c), head + hex_string(c) + "\"\n"@),
        (before + toml_entry(key, c)).last() == '\n',
{
    reveal_strlit("\"\n");
    lemma_line_last(before, toml_entry(key, c));
}

/// Every key of `colors.toml` is a line of its own, written from its own
/// color: `background`, `foreground` and `text` from the background and
/// foreground, `accent` and `accent_alt` from the two accents, and
/// `surface`, `surface_alt` from the background stepped by 14 and 28
/// (lighter on a dark background, darker on a light one). Nothing else of
/// the palette reaches the file.
#[verifier::rlimit(40)]
pub proof fn lemma_colors_toml_lines(p: ThemePalette, q: ThemePalette)
    ensures
        has_line(colors_toml_text(p), "background = \""@ + hex_string(p.background) + "\"\n"@),
        has_line(colors_toml_text(p), "foreground = \""@ + hex_string(p.foreground) + "\"\n"@),
        has_line(colors_toml_text(p), "text = \""@ + hex_string(p.foreground) + "\"\n"@),
        has_line(colors_toml_text(p), "accent = \""@ + hex_string(p.accent) + "\"\n"@),
        has_line(colors_toml_text(p), "accent_alt = \""@ + hex_string(p.accent2) + "\"\n"@),
        has_line(
            colors_toml_text(p),
            "surface = \""@ + hex_string(
                if luminance_below_half_spec(p.background) {
                    shaded(p.background, 14i16)
                } else {
                    shaded(p.background, -14i16)
                },
            ) + "\"\n"@,
        ),
        has_line(
            colors_toml_text(p),
            "surface_alt = \""@ + hex_string(
                if luminance_below_half_spec(p.background) {
                    shaded(p.background, 28i16)
                } else {
                    shaded(p.background, -28i16)
                },
            ) + "\"\n"@,
        ),
        q.background == p.background && q.foreground == p.foreground && q.accent == p.accent
            && q.accent2 == p.accent2 ==> colors_toml_text(q) == colors_toml_text(p),
{
    reveal_strlit(" = \"");
    reveal_strlit("[palette]\n");
    reveal_strlit("background");
    reveal_strlit("background = \"");
    reveal_strlit("foreground");
    reveal_strlit("foreground = \"");
    reveal_strlit("text");
    reveal_strlit("text = \"");
    reveal_strlit("accent");
    reveal_strlit("accent = \"");
    reveal_strlit("accent_alt");
    reveal_strlit("accent_alt = \"");
    reveal_strlit("surface");
    reveal_strlit("surface = \"");
    reveal_strlit("surface_alt");
    reveal_strlit("surface_alt = \"");
    let h = "# Generated by omarchy-theme-studio\n"@ + "[palette]\n"@;
    let t0 = h + toml_entry("background"@, p.background);
    let t1 = t0 + toml_entry("foreground"@, p.foreground);
    let t2 = t1 + toml_entry("text"@, p.foreground);
    let t3 = t2 + toml_entry("accent"@, p.accent);
    let t4 = t3 + toml_entry("accent_alt"@, p.accent2);
    let t5 = t4 + toml_entry("surface"@, surface_color(p));
    let t6 = t5 + toml_entry("surface_alt"@, surface_alt_color(p));
    assert(h.last() == '\n');
    assert("background"@ + " = \""@ =~= "background = \""@);
    assert("foreground"@ + " = \""@ =~= "foreground = \""@);
    assert("text"@ + " = \""@ =~= "text = \""@);
    assert("accent"@ + " = \""@ =~= "accent = \""@);
    assert("accent_alt"@ + " = \""@ =~= "accent_alt = \""@);
    assert("surface"@ + " = \""@ =~= "surface = \""@);
    assert("surface_alt"@ + " = \""@ =~= "surface_alt = \""@);
    lemma_toml_entry_line(h, "background"@, "background = \""@, p.background);
    lemma_toml_entry_line(t0, "foreground"@, "foreground = \""@, p.foreground);
    lemma_toml_entry_line(t1, "text"@, "text = \""@, p.foreground);
    lemma_toml_entry_line(t2, "accent"@, "accent = \""@, p.accent);
    lemma_toml_entry_line(t3, "accent_alt"@, "accent_alt = \""@, p.accent2);
    lemma_toml_entry_line(t4, "surface"@, "surface = \""@, surface_color(p));
    lemma_toml_entry_line(t5, "surface_alt"@, "surface_alt = \""@, surface_alt_color(p));
    lemma_lines_kept(t0, toml_entry("foreground"@, p.foreground));
    lemma_lines_kept(t1, toml_entry("text"@, p.foreground));
    lemma_lines_kept(t2, toml_entry("accent"@, p.accent));
    lemma_lines_kept(t3, toml_entry("accent_alt"@, p.accent2));
    lemma_lines_kept(t4, toml_entry("surface"@, surface_color(p)));
    lemma_lines_kept(t5, toml_entry("surface_alt"@, surface_alt_color(p)));
}

/// `waybar.css` defines `foreground` and `background`, each on a line of its
/// own, as the bar's foreground and background; the rest of the palette
/// (the desktop's own foreground among it) does not reach the file.
pub proof fn lemma_waybar_css_lines(p: ThemePalette, q: ThemePalette)
    ensures
        has_line(waybar_css_text(p), "@define-color foreground "@ + hex_string(p.waybar_foreground) + ";\n"@),
        has_line(waybar_css_text(p), "@define-color background "@ + hex_string(p.waybar_background) + ";\n"@),
        q.waybar_foreground == p.waybar_foreground && q.waybar_background == p.waybar_background
            ==> waybar_css_text(q) == waybar_css_text(p),
{
    reveal_strlit("/* Generated by omarchy-theme-studio */\n@define-color foreground ");
    reveal_strlit("/* Generated by omarchy-theme-studio */\n");
    reveal_strlit("@define-color foreground ");
    reveal_strlit(";\n@define-color background ");
    reveal_strlit("@define-color background ");
    reveal_strlit(";\n");
    let h = "/* Generated by omarchy-theme-studio */\n"@;
    let l0 = "@define-color foreground "@ + hex_string(p.waybar_foreground) + ";\n"@;
    let l1 = "@define-color background "@ + hex_string(p.waybar_background) + ";\n"@;
    assert(waybar_css_text(p) =~= h + l0 + l1);
    lemma_line_last(h, l0);
    lemma_line_last(h + l0, l1);
    lemma_lines_kept(h + l0, l1);
}

/// `walker.css` defines each launcher color on a line of its own:
/// `selected-text` as the selected row's background, `text` and
/// `foreground` as the launcher's foreground, `base` and `background` as its
/// background, and `border` as the accent. Nothing else of the palette
/// reaches the file.
#[verifier::rlimit(40)]
pub proof fn lemma_walker_css_lines(p: ThemePalette, q: ThemePalette)
    ensures
        has_line(
            walker_css_text(p),
            "@define-color selected-text "@ + hex_string(p.launcher_selected_background) + ";\n"@,
        ),
        has_line(walker_css_text(p), "@define-color text "@ + hex_string(p.launcher_foreground) + ";\n"@),
        has_line(walker_css_text(p), "@define-color base "@ + hex_string(p.launcher_background) + ";\n"@),
        has_line(walker_css_text(p), "@define-color border "@ + hex_string(p.accent) + ";\n"@),
        has_line(walker_css_text(p), "@define-color foreground "@ + hex_string(p.launcher_foreground) + ";\n"@),
        has_line(walker_css_text(p), "@define-color background "@ + hex_string(p.launcher_background) + ";\n"@),
        q.launcher_selected_background == p.launcher_selected_background && q.launcher_foreground
            == p.launcher_foreground && q.launcher_background == p.launcher_background && q.accent == p.accent
            ==> walker_css_text(q) == walker_css_text(p),
{
    reveal_strlit("/* Generated by omarchy-theme-studio */\n@define-color selected-text ");
    reveal_strlit("/* Generated by omarchy-theme-studio */\n");
    reveal_strlit("@define-color selected-text ");
    reveal_strlit(";\n@define-color text ");
    reveal_strlit("@define-color text ");
    reveal_strlit(";\n@define-color base ");
    reveal_strlit("@define-color base ");
    reveal_strlit(";\n@define-color border ");
    reveal_strlit("@define-color border ");
    reveal_strlit(";\n@define-color foreground ");
    reveal_strlit("@define-color foreground ");
    reveal_strlit(";\n@define-color background ");
    reveal_strlit("@define-color background ");
    reveal_strlit(";\n");
    let h = "/* Generated by omarchy-theme-studio */\n"@;
    let l0 = "@define-color selected-text "@ + hex_string(p.launcher_selected_background) + ";\n"@;
    let l1 = "@define-color text "@ + hex_string(p.launcher_foreground) + ";\n"@;
    let l2 = "@define-color base "@ + hex_string(p.launcher_background) + ";\n"@;
    let l3 = "@define-color border "@ + hex_string(p.accent) + ";\n"@;
    let l4 = "@define-color foreground "@ + hex_string(p.launcher_foreground) + ";\n"@;
    let l5 = "@define-color background "@ + hex_string(p.launcher_background) + ";\n"@;
    assert(walker_css_text(p) =~= h + l0 + l1 + l2 + l3 + l4 + l5);
    lemma_line_last(h, l0);
    lemma_line_last(h + l0, l1);
    lemma_line_last(h + l0 + l1, l2);
    lemma_line_last(h + l0 + l1 + l2, l3);
    lemma_line_last(h + l0 + l1 + l2 + l3, l4);
    lemma_line_last(h + l0 + l1 + l2 + l3 + l4, l5);
    lemma_lines_kept(h + l0, l1);
    lemma_lines_kept(h + l0 + l1, l2);
    lemma_lines_kept(h + l0 + l1 + l2, l3);
    lemma_lines_kept(h + l0 + l1 + l2 + l3, l4);
    lemma_lines_kept(h + l0 + l1 + l2 + l3 + l4, l5);
}

/// `hyprland.conf` sets `$activeBorderColor` on a line of its own, and starts
/// the next line by setting `$inactiveBorderColor`, to the two border colors
/// in Hyprland's `rgb(rrggbb)` form; nothing else of the palette reaches the
/// file.
pub proof fn lemma_hyprland_conf_lines(p: ThemePalette, q: ThemePalette)
    ensures
        has_line(hyprland_conf_text(p), "$activeBorderColor = rgb("@ + hex_bare_string(p.active_border) + ")\n"@),
        has_line(hyprland_conf_text(p), "$inactiveBorderColor = rgb("@ + hex_bare_string(p.inactive_border)),
        q.active_border == p.active_border && q.inactive_border == p.inactive_border
            ==> hyprland_conf_text(q) == hyprland_conf_text(p),
{
    reveal_strlit("# Generated by omarchy-theme-studio\n$activeBorderColor = rgb(");
    reveal_strlit("# Generated by omarchy-theme-studio\n");
    reveal_strlit("$activeBorderColor = rgb(");
    reveal_strlit(")\n$inactiveBorderColor = rgb(");
    reveal_strlit("$inactiveBorderColor = rgb(");
    reveal_strlit(")\n");
    let h = "# Generated by omarchy-theme-studio\n"@;
    let l0 = "$activeBorderColor = rgb("@ + hex_bare_string(p.active_border) + ")\n"@;
    let l1 = "$inactiveBorderColor = rgb("@ + hex_bare_string(p.inactive_border);
    let rest = HYPRLAND_TAIL@;
    assert(hyprland_conf_text(p) =~= h + l0 + l1 + rest);
    lemma_line_last(h, l0);
    lemma_line_last(h + l0, l1);
    lemma_lines_kept(h + l0, l1);
    lemma_lines_kept(h + l0 + l1, rest);
}

/// `ghostty.conf` sets each terminal color on a line of its own: the
/// terminal's background and foreground, the accent as cursor and selection
/// background, and the terminal background as selection foreground. Nothing
/// else of the palette reaches the file.
pub proof fn lemma_ghostty_conf_lines(p: ThemePalette, q: ThemePalette)
    ensures
        has_line(ghostty_conf_text(p), "background = "@ + hex_string(p.terminal_background) + "\n"@),
        has_line(ghostty_conf_text(p), "foreground = "@ + hex_string(p.terminal_foreground) + "\n"@),
        has_line(ghostty_conf_text(p), "cursor-color = "@ + hex_string(p.accent) + "\n"@),
        has_line(ghostty_conf_text(p), "selection-background = "@ + hex_string(p.accent) + "\n"@),
        has_line(ghostty_conf_text(p), "selection-foreground = "@ + hex_string(p.terminal_background) + "\n"@),
        q.terminal_background == p.terminal_background && q.terminal_foreground == p.terminal_foreground
            && q.accent == p.accent ==> ghostty_conf_text(q) == ghostty_conf_text(p),
{
    reveal_strlit("# Generated by omarchy-theme-studio\nbackground = ");
    reveal_strlit("# Generated by omarchy-theme-studio\n");
    reveal_strlit("background = ");
    reveal_strlit("\nforeground = ");
    reveal_strlit("foreground = ");
    reveal_strlit("\ncursor-color = ");
    reveal_strlit("cursor-color = ");
    reveal_strlit("\nselection-background = ");
    reveal_strlit("selection-background = ");
    reveal_strlit("\nselection-foreground = ");
    reveal_strlit("selection-foreground = ");
    reveal_strlit("\n");
    let h = "# Generated by omarchy-theme-studio\n"@;
    let l0 = "background = "@ + hex_string(p.terminal_background) + "\n"@;
    let l1 = "foreground = "@ + hex_string(p.terminal_foreground) + "\n"@;
    let l2 = "cursor-color = "@ + hex_string(p.accent) + "\n"@;
    let l3 = "selection-background = "@ + hex_string(p.accent) + "\n"@;
    let l4 = "selection-foreground = "@ + hex_string(p.terminal_background) + "\n"@;
    assert(ghostty_conf_text(p) =~= h + l0 + l1 + l2 + l3 + l4);
    lemma_line_last(h, l0);
    lemma_line_last(h + l0, l1);
    lemma_line_last(h + l0 + l1, l2);
    lemma_line_last(h + l0 + l1 + l2, l3);
    lemma_line_last(h + l0 + l1 + l2 + l3, l4);
    lemma_lines_kept(h + l0, l1);
    lemma_lines_kept(h + l0 + l1, l2);
    lemma_lines_kept(h + l0 + l1 + l2, l3);
    lemma_lines_kept(h + l0 + l1 + l2 + l3, l4);
}

/// `hyprlock.conf` sets each lock screen color on a line of its own, as
/// decimal `rgba()`: `$color` and `$inner_color` from the background (opaque
/// and at 0.8), `$outer_color` from the accent, `$font_color` and
/// `$placeholder_color` from the foreground (opaque and at 0.7), and
/// `$check_color` from the second accent. Nothing else of the palette
/// reaches the file.
#[verifier::rlimit(40)]
pub proof fn lemma_hyprlock_conf_lines(p: ThemePalette, q: ThemePalette)
    ensures
        has_line(hyprlock_conf_text(p), "$color = rgba("@ + decimal_triple(p.background) + ", 1.0)\n"@),
        has_line(hyprlock_conf_text(p), "$inner_color = rgba("@ + decimal_triple(p.background) + ", 0.8)\n"@),
        has_line(hyprlock_conf_text(p), "$outer_color = rgba("@ + decimal_triple(p.accent) + ", 1.0)\n"@),
        has_line(hyprlock_conf_text(p), "$font_color = rgba("@ + decimal_triple(p.foreground) + ", 1.0)\n"@),
        has_line(
            hyprlock_conf_text(p),
            "$placeholder_color = rgba("@ + decimal_triple(p.foreground) + ", 0.7)\n"@,
        ),
        has_line(hyprlock_conf_text(p), "$check_color = rgba("@ + decimal_triple(p.accent2) + ", 1.0)\n"@),
        q.background == p.background && q.foreground == p.foreground && q.accent == p.accent
            && q.accent2 == p.accent2 ==> hyprlock_conf_text(q) == hyprlock_conf_text(p),
{
    reveal_strlit("# Generated by omarchy-theme-studio\n$color = rgba(");
    reveal_strlit("# Generated by omarchy-theme-studio\n");
    reveal_strlit("$color = rgba(");
    reveal_strlit(", 1.0)\n$inner_color = rgba(");
    reveal_strlit(", 1.0)\n");
    reveal_strlit("$inner_color = rgba(");
    reveal_strlit(", 0.8)\n$outer_color = rgba(");
    reveal_strlit(", 0.8)\n");
    reveal_strlit("$outer_color = rgba(");
    reveal_strlit(", 1.0)\n$font_color = rgba(");
    reveal_strlit("$font_color = rgba(");
    reveal_strlit(", 1.0)\n$placeholder_color = rgba(");
    reveal_strlit("$placeholder_color = rgba(");
    reveal_strlit(", 0.7)\n$check_color = rgba(");
    reveal_strlit(", 0.7)\n");
    reveal_strlit("$check_color = rgba(");
    let h = "# Generated by omarchy-theme-studio\n"@;
    let l0 = "$color = rgba("@ + decimal_triple(p.background) + ", 1.0)\n"@;
    let l1 = "$inner_color = rgba("@ + decimal_triple(p.background) + ", 0.8)\n"@;
    let l2 = "$outer_color = rgba("@ + decimal_triple(p.accent) + ", 1.0)\n"@;
    let l3 = "$font_color = rgba("@ + decimal_triple(p.foreground) + ", 1.0)\n"@;
    let l4 = "$placeholder_color = rgba("@ + decimal_triple(p.foreground) + ", 0.7)\n"@;
    let l5 = "$check_color = rgba("@ + decimal_triple(p.accent2) + ", 1.0)\n"@;
    assert(hyprlock_conf_text(p) =~= h + l0 + l1 + l2 + l3 + l4 + l5);
    lemma_line_last(h, l0);
    lemma_line_last(h + l0, l1);
    lemma_line_last(h + l0 + l1, l2);
    lemma_line_last(h + l0 + l1 + l2, l3);
    lemma_line_last(h + l0 + l1 + l2 + l3, l4);
    lemma_line_last(h + l0 + l1 + l2 + l3 + l4, l5);
    lemma_lines_kept(h + l0, l1);
    lemma_lines_kept(h + l0 + l1, l2);
    lemma_lines_kept(h + l0 + l1 + l2, l3);
    lemma_lines_kept(h + l0 + l1 + l2 + l3, l4);
    lemma_lines_kept(h + l0 + l1 + l2 + l3 + l4, l5);
}

/// The README row for the `k`-th field.
pub open spec fn readme_row_of(p: ThemePalette, k: int) -> Seq<char> {
    readme_row(all_fields()[k].label_spec(), all_fields()[k].value_in(p))
}

/// The README table written after a line break ends with a line break.
proof fn lemma_readme_rows_end(before: Seq<char>, p: ThemePalette, n: int)
    requires
        before.len() > 0 && before.last() == '\n',
        0 <= n <= 17,
    ensures
        (before + readme_rows(p, n)).last() == '\n',
    decreases n,
{
    if n > 0 {
        lemma_readme_rows_end(before, p, n - 1);
        let row = readme_row_of(p, n - 1);
        assert(readme_rows(p, n) == readme_rows(p, n - 1) + row);
        vstd::seq_lib::lemma_concat_associative(before, readme_rows(p, n - 1), row);
        reveal_strlit("` |\n");
        assert(row.last() == '\n');
    } else {
        assert(before + readme_rows(p, n) =~= before);
    }
}

/// Each of the first `n` rows of the README table, written after a line
/// break, is a line of the text.
proof fn lemma_readme_row_line(before: Seq<char>, p: ThemePalette, n: int, k: int)
    requires
        before.len() > 0 && before.last() == '\n',
        0 <= k < n <= 17,
    ensures
        has_line(before + readme_rows(p, n), readme_row_of(p, k)),
    decreases n,
{
    let prev = before + readme_rows(p, n - 1);
    let row = readme_row_of(p, n - 1);
    assert(readme_rows(p, n) == readme_rows(p, n - 1) + row);
    vstd::seq_lib::lemma_concat_associative(before, readme_rows(p, n - 1), row);
    if k == n - 1 {
        lemma_readme_rows_end(before, p, n - 1);
        lemma_line_last(prev, row);
    } else {
        lemma_readme_row_line(before, p, n - 1, k);
        lemma_lines_kept(prev, row);
    }
}

/// `README.md` opens with the theme's name as its title, tells how to
/// install it under that name, and holds a table row
/// `| <label> | `#rrggbb` |` on a line of its own for every field of the
/// palette, in the field's own color.
pub proof fn lemma_readme_md_lines(name: Seq<char>, p: ThemePalette)
    ensures
        readme_md_text(name, p).subrange(0, name.len() + 2int) == "# "@ + name,
        forall|k: int|
            0 <= k < 17 ==> has_line(
                readme_md_text(name, p),
                "| "@ + (#[trigger] all_fields()[k]).label_spec() + " | `"@ + hex_string(all_fields()[k].value_in(p))
                    + "` |\n"@,
            ),
{
    reveal_strlit("# ");
    reveal_strlit("\n```\n\n## Palette\n\n| Field | Color |\n| --- | --- |\n");
    let before = "# "@ + name + README_INTRO@ + name + README_TABLE_HEAD@;
    assert(README_TABLE_HEAD@.len() > 0);
    assert(before.last() == README_TABLE_HEAD@.last());
    assert(readme_md_text(name, p).subrange(0, name.len() + 2int) =~= "# "@ + name);
    assert forall|k: int|
        0 <= k < 17 implies has_line(
            readme_md_text(name, p),
            "| "@ + (#[trigger] all_fields()[k]).label_spec() + " | `"@ + hex_string(all_fields()[k].value_in(p))
                + "` |\n"@,
        ) by {
        lemma_readme_row_line(before, p, 17, k);
        assert(readme_row_of(p, k) == "| "@ + all_fields()[k].label_spec() + " | `"@ + hex_string(
            all_fields()[k].value_in(p),
        ) + "` |\n"@);
    }
}

} // verus!
