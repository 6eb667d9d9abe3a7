//! Colors, the flat editable palette, named themes, and the two-tier field
//! model (groups of fields) that the editor navigates.
use vstd::prelude::*;
use crate::text::{hex_byte, hex_digit_char, lowercase_seq, push_hex_byte, to_ascii_lowercase_spec};
use vstd::string::StringSliceAdditionalSpecFns;
use vstd::utf8::{encode_utf8, is_ascii_chars, is_ascii_chars_encode_utf8};

pub mod presets;

verus! {

// ── RgbColor ─────────────────────────────────────────────────────────────────

/// An sRGB color with 8-bit channels.
#[derive(Debug, Clone, Copy, PartialEq, Eq, Hash, Structural)]
pub struct RgbColor {
    pub r: u8,
    pub g: u8,
    pub b: u8,
}

/// The color with the given channels.
pub open spec fn rgb(r: u8, g: u8, b: u8) -> RgbColor {
    RgbColor { r, g, b }
}

/// `#rrggbb` in lowercase hex.
pub open spec fn hex_string(c: RgbColor) -> Seq<char> {
    seq!['#'] + hex_bare_string(c)
}

/// `rrggbb` in lowercase hex, with no leading `#`.
pub open spec fn hex_bare_string(c: RgbColor) -> Seq<char> {
    hex_byte(c.r) + hex_byte(c.g) + hex_byte(c.b)
}

/// The value of an ASCII hex digit byte (either case).
pub open spec fn hex_digit_value(b: u8) -> Option<u8> {
    if 48 <= b <= 57 {
        Some((b - 48) as u8)
    } else if 97 <= b <= 102 {
        Some((b - 87) as u8)
    } else if 65 <= b <= 70 {
        Some((b - 55) as u8)
    } else {
        None
    }
}

/// What `u8::from_str_radix(s, 16)` gives for a two-byte `s`: an optional
/// leading `+` followed by hex digits, the value below 256.
pub open spec fn parse_hex_pair(hi: u8, lo: u8) -> Option<u8> {
    if hi == 43 {
        hex_digit_value(lo)
    } else {
        match (hex_digit_value(hi), hex_digit_value(lo)) {
            (Some(h), Some(l)) => Some((h * 16 + l) as u8),
            _ => None,
        }
    }
}

/// The bytes left once every leading `#` is removed.
pub open spec fn strip_hashes(b: Seq<u8>) -> Seq<u8>
    decreases b.len(),
{
    if b.len() > 0 && b[0] == 35 {
        strip_hashes(b.drop_first())
    } else {
        b
    }
}

/// The color that a `#rrggbb` / `rrggbb` string denotes, read from its UTF-8
/// bytes: after the leading `#`s exactly six bytes must remain, read as three
/// radix-16 byte values.
pub open spec fn parse_hex_color(bytes: Seq<u8>) -> Option<RgbColor> {
    let d = strip_hashes(bytes);
    if d.len() != 6 {
        None
    } else {
        match (parse_hex_pair(d[0], d[1]), parse_hex_pair(d[2], d[3]), parse_hex_pair(d[4], d[5])) {
            (Some(r), Some(g), Some(b)) => Some(RgbColor { r, g, b }),
            _ => None,
        }
    }
}

/// `i32` value of a color: `r * 65536 + g * 256 + b`.
pub open spec fn packed_rgb(c: RgbColor) -> int {
    c.r * 65536 + c.g * 256 + c.b
}

pub open spec fn clamp_to_u8(v: int) -> u8 {
    if v < 0 {
        0
    } else if v > 255 {
        255
    } else {
        v as u8
    }
}

pub open spec fn shade_channel(c: u8, amount: i16) -> u8 {
    clamp_to_u8(c + amount)
}

/// `2126 r + 7152 g + 722 b`: Rec. 709 luminance scaled by 2 550 000.
pub open spec fn weighted_luminance(c: RgbColor) -> int {
    2126 * c.r + 7152 * c.g + 722 * c.b
}

/// Whether the 32-bit float luminance `(0.2126 r + 0.7152 g + 0.0722 b) / 255`
/// falls below one half. In exact arithmetic that is `weighted_luminance < 1 275 000`;
/// of the colors that sit exactly on the boundary, float rounding puts only
/// `(61, 156, 41)` below it.
pub open spec fn luminance_below_half_spec(c: RgbColor) -> bool {
    weighted_luminance(c) < 1275000 || (c.r == 61 && c.g == 156 && c.b == 41)
}

proof fn lemma_strip_step(b: Seq<u8>, k: int)
    requires
        0 <= k < b.len(),
        b[k] == 35,
    ensures
        strip_hashes(b.skip(k)) == strip_hashes(b.skip(k + 1)),
{
    assert(b.skip(k).drop_first() =~= b.skip(k + 1));
}

fn read_hex_pair(hi: u8, lo: u8) -> (r: Option<u8>)
    ensures
        r == parse_hex_pair(hi, lo),
{
    let l = match hex_value(lo) {
        Some(v) => v,
        None => return None,
    };
    if hi == 43 {
        return Some(l);
    }
    match hex_value(hi) {
        Some(h) => Some(h * 16 + l),
        None => None,
    }
}

fn hex_value(b: u8) -> (r: Option<u8>)
    ensures
        r == hex_digit_value(b),
        r matches Some(v) ==> v < 16,
{
    if 48 <= b && b <= 57 {
        Some(b - 48)
    } else if 97 <= b && b <= 102 {
        Some(b - 87)
    } else if 65 <= b && b <= 70 {
        Some(b - 55)
    } else {
        None
    }
}

impl RgbColor {
    pub fn new(r: u8, g: u8, b: u8) -> (c: Self)
        ensures
            c == rgb(r, g, b),
    {
        Self { r, g, b }
    }

    /// Parses `#rrggbb` (any number of leading `#`, or none). Each channel is
    /// read as `u8::from_str_radix(_, 16)` reads it, so either case is
    /// accepted, as is a `+` in front of a single digit. Any other text,
    /// including text that is not ASCII, is not a color.
    pub fn from_hex(hex: &str) -> (c: Option<Self>)
        ensures
            c == parse_hex_color(hex.spec_bytes()),
    {
        let bytes = hex.as_bytes();
        let mut start: usize = 0;
        proof {
            assert(bytes@.skip(0) =~= bytes@);
        }
        while start < bytes.len() && bytes[start] == 35
            invariant
                start <= bytes.len(),
                strip_hashes(bytes@) == strip_hashes(bytes@.skip(start as int)),
            decreases bytes.len() - start,
        {
            proof {
                lemma_strip_step(bytes@, start as int);
            }
            start = start + 1;
        }
        let ghost d = bytes@.skip(start as int);
        proof {
            if d.len() > 0 {
                assert(d[0] == bytes@[start as int]);
            }
            assert(strip_hashes(d) == d);
        }
        if bytes.len() - start != 6 {
            return None;
        }
        proof {
            assert(d[0] == bytes@[start as int]);
            assert(d[1] == bytes@[start + 1]);
            assert(d[2] == bytes@[start + 2]);
            assert(d[3] == bytes@[start + 3]);
            assert(d[4] == bytes@[start + 4]);
            assert(d[5] == bytes@[start + 5]);
        }
        let r = match read_hex_pair(bytes[start], bytes[start + 1]) {
            Some(v) => v,
            None => return None,
        };
        let g = match read_hex_pair(bytes[start + 2], bytes[start + 3]) {
            Some(v) => v,
            None => return None,
        };
        let b = match read_hex_pair(bytes[start + 4], bytes[start + 5]) {
            Some(v) => v,
            None => return None,
        };
        Some(Self { r, g, b })
    }

    /// `#rrggbb`, lowercase.
    pub fn to_hex(self) -> (s: String)
        ensures
            s@ == hex_string(self),
    {
        let mut s = String::new();
        s.push('#');
        push_hex_byte(&mut s, self.r);
        push_hex_byte(&mut s, self.g);
        push_hex_byte(&mut s, self.b);
        assert(s@ =~= hex_string(self));
        s
    }

    /// Hex digits with no leading `#` (Hyprland's `rgb(RRGGBB)` form, ghostty, etc.).
    pub fn to_hex_bare(self) -> (s: String)
        ensures
            s@ == hex_bare_string(self),
    {
        let mut s = String::new();
        push_hex_byte(&mut s, self.r);
        push_hex_byte(&mut s, self.g);
        push_hex_byte(&mut s, self.b);
        assert(s@ =~= hex_bare_string(self));
        s
    }

    /// Whether the perceptual (Rec. 709) luminance, as the 32-bit float
    /// formula computes it, is below one half.
    pub fn luminance_below_half(&self) -> (dark: bool)
        ensures
            dark == luminance_below_half_spec(*self),
    {
        let w: u32 = 2126 * (self.r as u32) + 7152 * (self.g as u32) + 722 * (self.b as u32);
        w < 1275000 || (self.r == 61 && self.g == 156 && self.b == 41)
    }

    /// Lighten (positive) or darken (negative) each channel by `amount`,
    /// clamping to `0..=255`.
    pub fn shade(&self, amount: i16) -> (c: RgbColor)
        requires
            self.r + amount <= i16::MAX,
            self.g + amount <= i16::MAX,
            self.b + amount <= i16::MAX,
        ensures
            c == rgb(
                shade_channel(self.r, amount),
                shade_channel(self.g, amount),
                shade_channel(self.b, amount),
            ),
    {
        RgbColor::new(
            shade_one(self.r, amount),
            shade_one(self.g, amount),
            shade_one(self.b, amount),
        )
    }

    /// The packed `0xRRGGBB` value plus `delta`, clamped to `0..=255`.
    pub fn saturating_add(self, delta: i8) -> (v: u8)
        ensures
            v == clamp_to_u8(packed_rgb(self) + delta),
    {
        let val: i32 = i32::from(self) + (delta as i32);
        clamp_i32(val)
    }

    /// The packed `0xRRGGBB` value plus `delta`, clamped to `0..=255`.
    pub fn saturating_add_unsigned(self, delta: u8) -> (v: u8)
        ensures
            v == clamp_to_u8(packed_rgb(self) + delta),
    {
        let val: i32 = i32::from(self) + (delta as i32);
        clamp_i32(val)
    }
}

fn shade_one(c: u8, amount: i16) -> (v: u8)
    requires
        c + amount <= i16::MAX,
    ensures
        v == shade_channel(c, amount),
{
    let x: i16 = (c as i16) + amount;
    if x < 0 {
        0
    } else if x > 255 {
        255
    } else {
        x as u8
    }
}

fn clamp_i32(val: i32) -> (v: u8)
    ensures
        v == clamp_to_u8(val as int),
{
    if val < 0 {
        0
    } else if val > 255 {
        255
    } else {
        val as u8
    }
}

impl Default for RgbColor {
    fn default() -> (c: Self)
        ensures
            c == rgb(0, 0, 0),
    {
        RgbColor { r: 0, g: 0, b: 0 }
    }
}

impl From<RgbColor> for i32 {
    fn from(color: RgbColor) -> (v: Self) {
        (color.r as i32) * 256 * 256 + (color.g as i32) * 256 + (color.b as i32)
    }
}

impl vstd::std_specs::convert::FromSpecImpl<RgbColor> for i32 {
    open spec fn obeys_from_spec() -> bool {
        true
    }

    open spec fn from_spec(color: RgbColor) -> i32 {
        packed_rgb(color) as i32
    }
}

impl From<RgbColor> for u8 {
    fn from(color: RgbColor) -> (v: Self) {
        color.r
    }
}

impl vstd::std_specs::convert::FromSpecImpl<RgbColor> for u8 {
    open spec fn obeys_from_spec() -> bool {
        true
    }

    open spec fn from_spec(color: RgbColor) -> u8 {
        color.r
    }
}

/// Convenience for building palettes from hex literals; the literal must be
/// a valid `#rrggbb`.
pub fn hex(s: &str) -> (c: RgbColor)
    requires
        parse_hex_color(s.spec_bytes()) is Some,
    ensures
        Some(c) == parse_hex_color(s.spec_bytes()),
{
    match RgbColor::from_hex(s) {
        Some(c) => c,
        None => RgbColor::new(0, 0, 0),
    }
}

// ── ThemePalette ─────────────────────────────────────────────────────────────

/// A flat, app-neutral desktop color palette. Each field is a single color so
/// the editor, undo stack, yank/paste, and color picker all operate uniformly.
#[derive(Debug, Clone, Copy, PartialEq, Eq, Structural)]
pub struct ThemePalette {
    pub background: RgbColor,
    pub foreground: RgbColor,
    pub accent: RgbColor,
    pub accent2: RgbColor,
    pub active_border: RgbColor,
    pub inactive_border: RgbColor,
    pub waybar_background: RgbColor,
    pub waybar_foreground: RgbColor,
    pub waybar_active_workspace: RgbColor,
    pub launcher_background: RgbColor,
    pub launcher_foreground: RgbColor,
    pub launcher_selected_background: RgbColor,
    pub launcher_selected_foreground: RgbColor,
    pub terminal_background: RgbColor,
    pub terminal_foreground: RgbColor,
    pub notification_background: RgbColor,
    pub notification_border: RgbColor,
}

/// The built-in dark palette (Tokyo Night).
pub open spec fn default_palette() -> ThemePalette {
    ThemePalette {
        background: rgb(0x1a, 0x1b, 0x26),
        foreground: rgb(0xc0, 0xca, 0xf5),
        accent: rgb(0x7a, 0xa2, 0xf7),
        accent2: rgb(0xbb, 0x9a, 0xf7),
        active_border: rgb(0x7a, 0xa2, 0xf7),
        inactive_border: rgb(0x29, 0x2e, 0x42),
        waybar_background: rgb(0x16, 0x16, 0x1e),
        waybar_foreground: rgb(0xc0, 0xca, 0xf5),
        waybar_active_workspace: rgb(0x7a, 0xa2, 0xf7),
        launcher_background: rgb(0x1a, 0x1b, 0x26),
        launcher_foreground: rgb(0xc0, 0xca, 0xf5),
        launcher_selected_background: rgb(0x7a, 0xa2, 0xf7),
        launcher_selected_foreground: rgb(0x1a, 0x1b, 0x26),
        terminal_background: rgb(0x1a, 0x1b, 0x26),
        terminal_foreground: rgb(0xc0, 0xca, 0xf5),
        notification_background: rgb(0x1a, 0x1b, 0x26),
        notification_border: rgb(0x7a, 0xa2, 0xf7),
    }
}

impl Default for ThemePalette {
    fn default() -> (p: Self)
        ensures
            p == default_palette(),
    {
        ThemePalette {
            background: RgbColor::new(0x1a, 0x1b, 0x26),
            foreground: RgbColor::new(0xc0, 0xca, 0xf5),
            accent: RgbColor::new(0x7a, 0xa2, 0xf7),
            accent2: RgbColor::new(0xbb, 0x9a, 0xf7),
            active_border: RgbColor::new(0x7a, 0xa2, 0xf7),
            inactive_border: RgbColor::new(0x29, 0x2e, 0x42),
            waybar_background: RgbColor::new(0x16, 0x16, 0x1e),
            waybar_foreground: RgbColor::new(0xc0, 0xca, 0xf5),
            waybar_active_workspace: RgbColor::new(0x7a, 0xa2, 0xf7),
            launcher_background: RgbColor::new(0x1a, 0x1b, 0x26),
            launcher_foreground: RgbColor::new(0xc0, 0xca, 0xf5),
            launcher_selected_background: RgbColor::new(0x7a, 0xa2, 0xf7),
            launcher_selected_foreground: RgbColor::new(0x1a, 0x1b, 0x26),
            terminal_background: RgbColor::new(0x1a, 0x1b, 0x26),
            terminal_foreground: RgbColor::new(0xc0, 0xca, 0xf5),
            notification_background: RgbColor::new(0x1a, 0x1b, 0x26),
            notification_border: RgbColor::new(0x7a, 0xa2, 0xf7),
        }
    }
}


// ── Theme ────────────────────────────────────────────────────────────────────

/// A named palette — the unit the loader, exporter, and editor pass around.
#[derive(Debug, PartialEq, Eq)]
pub struct Theme {
    pub name: String,
    pub palette: ThemePalette,
}

impl Clone for Theme {
    fn clone(&self) -> (t: Self)
        ensures
            t == *self,
    {
        Theme { name: self.name.clone(), palette: self.palette }
    }
}

impl Default for Theme {
    fn default() -> (t: Self)
        ensures
            t.name@ == "untitled"@,
            t.palette == default_palette(),
    {
        Theme { name: String::from_str("untitled"), palette: ThemePalette::default() }
    }
}

impl Theme {
    pub fn new(name: &str, palette: ThemePalette) -> (t: Self)
        ensures
            t.name@ == name@,
            t.palette == palette,
    {
        Theme { name: name.to_owned(), palette }
    }
}

// ── Fields and groups ────────────────────────────────────────────────────────

/// Editable target: which single color of the palette is currently selected.
#[derive(Debug, Clone, Copy, PartialEq, Eq, Hash, Structural)]
pub enum PaletteField {
    Background,
    Foreground,
    Accent,
    Accent2,
    ActiveBorder,
    InactiveBorder,
    WaybarBackground,
    WaybarForeground,
    WaybarActiveWorkspace,
    LauncherBackground,
    LauncherForeground,
    LauncherSelectedBackground,
    LauncherSelectedForeground,
    TerminalBackground,
    TerminalForeground,
    NotificationBackground,
    NotificationBorder,
}

/// Every field, in region-grouped order.
pub open spec fn all_fields() -> Seq<PaletteField> {
    seq![
        PaletteField::Background,
        PaletteField::Foreground,
        PaletteField::Accent,
        PaletteField::Accent2,
        PaletteField::ActiveBorder,
        PaletteField::InactiveBorder,
        PaletteField::WaybarBackground,
        PaletteField::WaybarForeground,
        PaletteField::WaybarActiveWorkspace,
        PaletteField::LauncherBackground,
        PaletteField::LauncherForeground,
        PaletteField::LauncherSelectedBackground,
        PaletteField::LauncherSelectedForeground,
        PaletteField::TerminalBackground,
        PaletteField::TerminalForeground,
        PaletteField::NotificationBackground,
        PaletteField::NotificationBorder,
    ]
}

/// Every group, in tab order.
pub open spec fn all_groups() -> Seq<PaletteGroup> {
    seq![
        PaletteGroup::Desktop,
        PaletteGroup::Windows,
        PaletteGroup::Waybar,
        PaletteGroup::Launcher,
        PaletteGroup::Terminal,
        PaletteGroup::Notification,
    ]
}

impl PaletteField {
    /// The color this field selects in `p`.
    pub open spec fn value_in(self, p: ThemePalette) -> RgbColor {
        match self {
            PaletteField::Background => p.background,
            PaletteField::Foreground => p.foreground,
            PaletteField::Accent => p.accent,
            PaletteField::Accent2 => p.accent2,
            PaletteField::ActiveBorder => p.active_border,
            PaletteField::InactiveBorder => p.inactive_border,
            PaletteField::WaybarBackground => p.waybar_background,
            PaletteField::WaybarForeground => p.waybar_foreground,
            PaletteField::WaybarActiveWorkspace => p.waybar_active_workspace,
            PaletteField::LauncherBackground => p.launcher_background,
            PaletteField::LauncherForeground => p.launcher_foreground,
            PaletteField::LauncherSelectedBackground => p.launcher_selected_background,
            PaletteField::LauncherSelectedForeground => p.launcher_selected_foreground,
            PaletteField::TerminalBackground => p.terminal_background,
            PaletteField::TerminalForeground => p.terminal_foreground,
            PaletteField::NotificationBackground => p.notification_background,
            PaletteField::NotificationBorder => p.notification_border,
        }
    }

    /// `p` with this field's color replaced by `c`.
    pub open spec fn set_in(self, p: ThemePalette, c: RgbColor) -> ThemePalette {
        match self {
            PaletteField::Background => ThemePalette { background: c, ..p },
            PaletteField::Foreground => ThemePalette { foreground: c, ..p },
            PaletteField::Accent => ThemePalette { accent: c, ..p },
            PaletteField::Accent2 => ThemePalette { accent2: c, ..p },
            PaletteField::ActiveBorder => ThemePalette { active_border: c, ..p },
            PaletteField::InactiveBorder => ThemePalette { inactive_border: c, ..p },
            PaletteField::WaybarBackground => ThemePalette { waybar_background: c, ..p },
            PaletteField::WaybarForeground => ThemePalette { waybar_foreground: c, ..p },
            PaletteField::WaybarActiveWorkspace => ThemePalette { waybar_active_workspace: c, ..p },
            PaletteField::LauncherBackground => ThemePalette { launcher_background: c, ..p },
            PaletteField::LauncherForeground => ThemePalette { launcher_foreground: c, ..p },
            PaletteField::LauncherSelectedBackground => ThemePalette { launcher_selected_background: c, ..p },
            PaletteField::LauncherSelectedForeground => ThemePalette { launcher_selected_foreground: c, ..p },
            PaletteField::TerminalBackground => ThemePalette { terminal_background: c, ..p },
            PaletteField::TerminalForeground => ThemePalette { terminal_foreground: c, ..p },
            PaletteField::NotificationBackground => ThemePalette { notification_background: c, ..p },
            PaletteField::NotificationBorder => ThemePalette { notification_border: c, ..p },
        }
    }

    pub open spec fn group_spec(self) -> PaletteGroup {
        match self {
            PaletteField::Background => PaletteGroup::Desktop,
            PaletteField::Foreground => PaletteGroup::Desktop,
            PaletteField::Accent => PaletteGroup::Desktop,
            PaletteField::Accent2 => PaletteGroup::Desktop,
            PaletteField::ActiveBorder => PaletteGroup::Windows,
            PaletteField::InactiveBorder => PaletteGroup::Windows,
            PaletteField::WaybarBackground => PaletteGroup::Waybar,
            PaletteField::WaybarForeground => PaletteGroup::Waybar,
            PaletteField::WaybarActiveWorkspace => PaletteGroup::Waybar,
            PaletteField::LauncherBackground => PaletteGroup::Launcher,
            PaletteField::LauncherForeground => PaletteGroup::Launcher,
            PaletteField::LauncherSelectedBackground => PaletteGroup::Launcher,
            PaletteField::LauncherSelectedForeground => PaletteGroup::Launcher,
            PaletteField::TerminalBackground => PaletteGroup::Terminal,
            PaletteField::TerminalForeground => PaletteGroup::Terminal,
            PaletteField::NotificationBackground => PaletteGroup::Notification,
            PaletteField::NotificationBorder => PaletteGroup::Notification,
        }
    }

    pub open spec fn label_spec(self) -> Seq<char> {
        match self {
            PaletteField::Background => "Background"@,
            PaletteField::Foreground => "Foreground"@,
            PaletteField::Accent => "Accent"@,
            PaletteField::Accent2 => "Accent 2"@,
            PaletteField::ActiveBorder => "Active border"@,
            PaletteField::InactiveBorder => "Inactive border"@,
            PaletteField::WaybarBackground => "Waybar background"@,
            PaletteField::WaybarForeground => "Waybar foreground"@,
            PaletteField::WaybarActiveWorkspace => "Waybar active workspace"@,
            PaletteField::LauncherBackground => "Launcher background"@,
            PaletteField::LauncherForeground => "Launcher foreground"@,
            PaletteField::LauncherSelectedBackground => "Launcher selected bg"@,
            PaletteField::LauncherSelectedForeground => "Launcher selected fg"@,
            PaletteField::TerminalBackground => "Terminal background"@,
            PaletteField::TerminalForeground => "Terminal foreground"@,
            PaletteField::NotificationBackground => "Notification background"@,
            PaletteField::NotificationBorder => "Notification border"@,
        }
    }

    /// Position in `all_fields()`.
    pub open spec fn position(self) -> int {
        match self {
            PaletteField::Background => 0,
            PaletteField::Foreground => 1,
            PaletteField::Accent => 2,
            PaletteField::Accent2 => 3,
            PaletteField::ActiveBorder => 4,
            PaletteField::InactiveBorder => 5,
            PaletteField::WaybarBackground => 6,
            PaletteField::WaybarForeground => 7,
            PaletteField::WaybarActiveWorkspace => 8,
            PaletteField::LauncherBackground => 9,
            PaletteField::LauncherForeground => 10,
            PaletteField::LauncherSelectedBackground => 11,
            PaletteField::LauncherSelectedForeground => 12,
            PaletteField::TerminalBackground => 13,
            PaletteField::TerminalForeground => 14,
            PaletteField::NotificationBackground => 15,
            PaletteField::NotificationBorder => 16,
        }
    }

    /// Region-grouped order — drives linear navigation and the field list.
    pub fn all() -> (r: &'static [PaletteField])
        ensures
            r@ == all_fields(),
    {
        &[
            PaletteField::Background,
            PaletteField::Foreground,
            PaletteField::Accent,
            PaletteField::Accent2,
            PaletteField::ActiveBorder,
            PaletteField::InactiveBorder,
            PaletteField::WaybarBackground,
            PaletteField::WaybarForeground,
            PaletteField::WaybarActiveWorkspace,
            PaletteField::LauncherBackground,
            PaletteField::LauncherForeground,
            PaletteField::LauncherSelectedBackground,
            PaletteField::LauncherSelectedForeground,
            PaletteField::TerminalBackground,
            PaletteField::TerminalForeground,
            PaletteField::NotificationBackground,
            PaletteField::NotificationBorder,
        ]
    }

    /// The region group this field belongs to.
    pub fn group(&self) -> (g: PaletteGroup)
        ensures
            g == self.group_spec(),
    {
        match self {
            PaletteField::Background | PaletteField::Foreground | PaletteField::Accent | PaletteField::Accent2 => PaletteGroup::Desktop,
            PaletteField::ActiveBorder | PaletteField::InactiveBorder => PaletteGroup::Windows,
            PaletteField::WaybarBackground | PaletteField::WaybarForeground | PaletteField::WaybarActiveWorkspace => PaletteGroup::Waybar,
            PaletteField::LauncherBackground | PaletteField::LauncherForeground | PaletteField::LauncherSelectedBackground | PaletteField::LauncherSelectedForeground => PaletteGroup::Launcher,
            PaletteField::TerminalBackground | PaletteField::TerminalForeground => PaletteGroup::Terminal,
            PaletteField::NotificationBackground | PaletteField::NotificationBorder => PaletteGroup::Notification,
        }
    }

    pub fn label(&self) -> (s: &'static str)
        ensures
            s@ == self.label_spec(),
    {
        match self {
            PaletteField::Background => "Background",
            PaletteField::Foreground => "Foreground",
            PaletteField::Accent => "Accent",
            PaletteField::Accent2 => "Accent 2",
            PaletteField::ActiveBorder => "Active border",
            PaletteField::InactiveBorder => "Inactive border",
            PaletteField::WaybarBackground => "Waybar background",
            PaletteField::WaybarForeground => "Waybar foreground",
            PaletteField::WaybarActiveWorkspace => "Waybar active workspace",
            PaletteField::LauncherBackground => "Launcher background",
            PaletteField::LauncherForeground => "Launcher foreground",
            PaletteField::LauncherSelectedBackground => "Launcher selected bg",
            PaletteField::LauncherSelectedForeground => "Launcher selected fg",
            PaletteField::TerminalBackground => "Terminal background",
            PaletteField::TerminalForeground => "Terminal foreground",
            PaletteField::NotificationBackground => "Notification background",
            PaletteField::NotificationBorder => "Notification border",
        }
    }

    pub fn get(&self, p: &ThemePalette) -> (c: RgbColor)
        ensures
            c == self.value_in(*p),
    {
        *self.get_ref(p)
    }

    fn get_ref<'a>(&self, p: &'a ThemePalette) -> (c: &'a RgbColor)
        ensures
            *c == self.value_in(*p),
    {
        match self {
            PaletteField::Background => &p.background,
            PaletteField::Foreground => &p.foreground,
            PaletteField::Accent => &p.accent,
            PaletteField::Accent2 => &p.accent2,
            PaletteField::ActiveBorder => &p.active_border,
            PaletteField::InactiveBorder => &p.inactive_border,
            PaletteField::WaybarBackground => &p.waybar_background,
            PaletteField::WaybarForeground => &p.waybar_foreground,
            PaletteField::WaybarActiveWorkspace => &p.waybar_active_workspace,
            PaletteField::LauncherBackground => &p.launcher_background,
            PaletteField::LauncherForeground => &p.launcher_foreground,
            PaletteField::LauncherSelectedBackground => &p.launcher_selected_background,
            PaletteField::LauncherSelectedForeground => &p.launcher_selected_foreground,
            PaletteField::TerminalBackground => &p.terminal_background,
            PaletteField::TerminalForeground => &p.terminal_foreground,
            PaletteField::NotificationBackground => &p.notification_background,
            PaletteField::NotificationBorder => &p.notification_border,
        }
    }

    /// A mutable borrow of this field's color: writing through it changes this
    /// field of `p` and no other.
    pub fn get_mut<'a>(&self, p: &'a mut ThemePalette) -> (c: &'a mut RgbColor)
        ensures
            *c == self.value_in(*old(p)),
            *final(p) == self.set_in(*old(p), *final(c)),
    {
        match self {
            PaletteField::Background => &mut p.background,
            PaletteField::Foreground => &mut p.foreground,
            PaletteField::Accent => &mut p.accent,
            PaletteField::Accent2 => &mut p.accent2,
            PaletteField::ActiveBorder => &mut p.active_border,
            PaletteField::InactiveBorder => &mut p.inactive_border,
            PaletteField::WaybarBackground => &mut p.waybar_background,
            PaletteField::WaybarForeground => &mut p.waybar_foreground,
            PaletteField::WaybarActiveWorkspace => &mut p.waybar_active_workspace,
            PaletteField::LauncherBackground => &mut p.launcher_background,
            PaletteField::LauncherForeground => &mut p.launcher_foreground,
            PaletteField::LauncherSelectedBackground => &mut p.launcher_selected_background,
            PaletteField::LauncherSelectedForeground => &mut p.launcher_selected_foreground,
            PaletteField::TerminalBackground => &mut p.terminal_background,
            PaletteField::TerminalForeground => &mut p.terminal_foreground,
            PaletteField::NotificationBackground => &mut p.notification_background,
            PaletteField::NotificationBorder => &mut p.notification_border,
        }
    }
}

/// A region grouping of palette fields — drives the two-tier field selector.
#[derive(Debug, Clone, Copy, PartialEq, Eq, Hash, Structural)]
pub enum PaletteGroup {
    Desktop,
    Windows,
    Waybar,
    Launcher,
    Terminal,
    Notification,
}

impl PaletteGroup {
    pub open spec fn fields_spec(self) -> Seq<PaletteField> {
        match self {
            PaletteGroup::Desktop => seq![PaletteField::Background, PaletteField::Foreground, PaletteField::Accent, PaletteField::Accent2],
            PaletteGroup::Windows => seq![PaletteField::ActiveBorder, PaletteField::InactiveBorder],
            PaletteGroup::Waybar => seq![PaletteField::WaybarBackground, PaletteField::WaybarForeground, PaletteField::WaybarActiveWorkspace],
            PaletteGroup::Launcher => seq![PaletteField::LauncherBackground, PaletteField::LauncherForeground, PaletteField::LauncherSelectedBackground, PaletteField::LauncherSelectedForeground],
            PaletteGroup::Terminal => seq![PaletteField::TerminalBackground, PaletteField::TerminalForeground],
            PaletteGroup::Notification => seq![PaletteField::NotificationBackground, PaletteField::NotificationBorder],
        }
    }

    pub open spec fn label_spec(self) -> Seq<char> {
        match self {
            PaletteGroup::Desktop => "Desktop"@,
            PaletteGroup::Windows => "Windows"@,
            PaletteGroup::Waybar => "Waybar"@,
            PaletteGroup::Launcher => "Launcher"@,
            PaletteGroup::Terminal => "Terminal"@,
            PaletteGroup::Notification => "Notification"@,
        }
    }

    /// Position in `all_groups()`.
    pub open spec fn position(self) -> int {
        match self {
            PaletteGroup::Desktop => 0,
            PaletteGroup::Windows => 1,
            PaletteGroup::Waybar => 2,
            PaletteGroup::Launcher => 3,
            PaletteGroup::Terminal => 4,
            PaletteGroup::Notification => 5,
        }
    }

    pub fn all() -> (r: &'static [PaletteGroup; 6])
        ensures
            r@ == all_groups(),
    {
        &[PaletteGroup::Desktop, PaletteGroup::Windows, PaletteGroup::Waybar, PaletteGroup::Launcher, PaletteGroup::Terminal, PaletteGroup::Notification]
    }

    pub fn label(&self) -> (s: &'static str)
        ensures
            s@ == self.label_spec(),
    {
        match self {
            PaletteGroup::Desktop => "Desktop",
            PaletteGroup::Windows => "Windows",
            PaletteGroup::Waybar => "Waybar",
            PaletteGroup::Launcher => "Launcher",
            PaletteGroup::Terminal => "Terminal",
            PaletteGroup::Notification => "Notification",
        }
    }

    pub fn fields(&self) -> (r: &'static [PaletteField])
        ensures
            r@ == self.fields_spec(),
    {
        match self {
            PaletteGroup::Desktop => &[PaletteField::Background, PaletteField::Foreground, PaletteField::Accent, PaletteField::Accent2],
            PaletteGroup::Windows => &[PaletteField::ActiveBorder, PaletteField::InactiveBorder],
            PaletteGroup::Waybar => &[PaletteField::WaybarBackground, PaletteField::WaybarForeground, PaletteField::WaybarActiveWorkspace],
            PaletteGroup::Launcher => &[PaletteField::LauncherBackground, PaletteField::LauncherForeground, PaletteField::LauncherSelectedBackground, PaletteField::LauncherSelectedForeground],
            PaletteGroup::Terminal => &[PaletteField::TerminalBackground, PaletteField::TerminalForeground],
            PaletteGroup::Notification => &[PaletteField::NotificationBackground, PaletteField::NotificationBorder],
        }
    }

    /// Position of this group among `all()`.
    pub fn index(&self) -> (i: usize)
        ensures
            i == self.position(),
    {
        let groups = Self::all();
        let mut i: usize = 0;
        while i < 6
            invariant
                groups@ == all_groups(),
                i <= 6,
                forall|j: int| 0 <= j < i ==> groups@[j] != *self,
            decreases 6 - i,
        {
            if groups[i] == *self {
                return i;
            }
            i = i + 1;
        }
        0
    }
}


// ── Laws ─────────────────────────────────────────────────────────────────────

/// Writing a field and reading it back gives the written color; every other
/// field keeps its color.
pub proof fn lemma_field_write_then_read(f: PaletteField, p: ThemePalette, c: RgbColor)
    ensures
        f.value_in(f.set_in(p, c)) == c,
        forall|g: PaletteField| g != f ==> #[trigger] g.value_in(f.set_in(p, c)) == g.value_in(p),
{
}

/// Writing back the color a field already has leaves the palette unchanged.
pub proof fn lemma_field_write_same(f: PaletteField, p: ThemePalette)
    ensures
        f.set_in(p, f.value_in(p)) == p,
{
}

/// The field list names every field exactly once, each at its own position.
pub proof fn lemma_all_fields_enumerate()
    ensures
        all_fields().len() == 17,
        all_fields().no_duplicates(),
        forall|f: PaletteField| 0 <= #[trigger] f.position() < 17 && all_fields()[f.position()] == f,
{
    assert forall|i: int, j: int|
        0 <= i < all_fields().len() && 0 <= j < all_fields().len() && i != j implies all_fields()[i]
        != all_fields()[j] by {
        assert(all_fields()[i].position() == i);
        assert(all_fields()[j].position() == j);
    }
}

/// Labels identify fields: no two fields share a label.
#[verifier::rlimit(60)]
pub proof fn lemma_field_labels_distinct()
    ensures
        forall|f: PaletteField, g: PaletteField| f != g ==> #[trigger] f.label_spec() != #[trigger] g.label_spec(),
{
    reveal_strlit("Background");
    reveal_strlit("Foreground");
    reveal_strlit("Accent");
    reveal_strlit("Accent 2");
    reveal_strlit("Active border");
    reveal_strlit("Inactive border");
    reveal_strlit("Waybar background");
    reveal_strlit("Waybar foreground");
    reveal_strlit("Waybar active workspace");
    reveal_strlit("Launcher background");
    reveal_strlit("Launcher foreground");
    reveal_strlit("Launcher selected bg");
    reveal_strlit("Launcher selected fg");
    reveal_strlit("Terminal background");
    reveal_strlit("Terminal foreground");
    reveal_strlit("Notification background");
    reveal_strlit("Notification border");
    assert forall|f: PaletteField, g: PaletteField| f != g implies #[trigger] f.label_spec() != #[trigger] g.label_spec() by {
        let a = f.label_spec();
        let b = g.label_spec();
        if a == b {
            assert(a.len() == b.len());
            assert(a[0] == b[0]);
            if a.len() > 9 {
                assert(a[9] == b[9]);
            }
            if a.len() > 13 {
                assert(a[13] == b[13]);
            }
            if a.len() > 18 {
                assert(a[18] == b[18]);
            }
            if a.len() > 7 {
                assert(a[7] == b[7]);
            }
        }
    }
}

/// The group list names every group exactly once, each at its own position.
pub proof fn lemma_all_groups_enumerate()
    ensures
        all_groups().len() == 6,
        all_groups().no_duplicates(),
        forall|g: PaletteGroup| 0 <= #[trigger] g.position() < 6 && all_groups()[g.position()] == g,
{
    assert forall|i: int, j: int|
        0 <= i < all_groups().len() && 0 <= j < all_groups().len() && i != j implies all_groups()[i]
        != all_groups()[j] by {
        assert(all_groups()[i].position() == i);
        assert(all_groups()[j].position() == j);
    }
}

/// The groups partition the fields in order: concatenating each group's
/// fields in tab order gives the full field list, every listed field maps
/// back to the group that lists it, and every field is listed by its group.
pub proof fn lemma_groups_partition_fields()
    ensures
        all_groups().map_values(|g: PaletteGroup| g.fields_spec()).flatten() == all_fields(),
        forall|g: PaletteGroup, i: int|
            0 <= i < g.fields_spec().len() ==> (#[trigger] g.fields_spec()[i]).group_spec() == g,
        forall|f: PaletteField| #[trigger] f.group_spec().fields_spec().contains(f),
        forall|g: PaletteGroup| #[trigger] g.fields_spec().len() > 0,
{
    let gs = all_groups().map_values(|g: PaletteGroup| g.fields_spec());
    reveal_with_fuel(Seq::flatten, 7);
    assert(gs.drop_first().drop_first().drop_first().drop_first().drop_first().drop_first().len()
        == 0);
    assert(gs.flatten() =~= all_fields());
    assert forall|f: PaletteField| #[trigger] f.group_spec().fields_spec().contains(f) by {
        match f {
            PaletteField::Background => assert(f.group_spec().fields_spec()[0] == f),
            PaletteField::Foreground => assert(f.group_spec().fields_spec()[1] == f),
            PaletteField::Accent => assert(f.group_spec().fields_spec()[2] == f),
            PaletteField::Accent2 => assert(f.group_spec().fields_spec()[3] == f),
            PaletteField::ActiveBorder => assert(f.group_spec().fields_spec()[0] == f),
            PaletteField::InactiveBorder => assert(f.group_spec().fields_spec()[1] == f),
            PaletteField::WaybarBackground => assert(f.group_spec().fields_spec()[0] == f),
            PaletteField::WaybarForeground => assert(f.group_spec().fields_spec()[1] == f),
            PaletteField::WaybarActiveWorkspace => assert(f.group_spec().fields_spec()[2] == f),
            PaletteField::LauncherBackground => assert(f.group_spec().fields_spec()[0] == f),
            PaletteField::LauncherForeground => assert(f.group_spec().fields_spec()[1] == f),
            PaletteField::LauncherSelectedBackground => assert(f.group_spec().fields_spec()[2] == f),
            PaletteField::LauncherSelectedForeground => assert(f.group_spec().fields_spec()[3] == f),
            PaletteField::TerminalBackground => assert(f.group_spec().fields_spec()[0] == f),
            PaletteField::TerminalForeground => assert(f.group_spec().fields_spec()[1] == f),
            PaletteField::NotificationBackground => assert(f.group_spec().fields_spec()[0] == f),
            PaletteField::NotificationBorder => assert(f.group_spec().fields_spec()[1] == f),
        }
    }
}

proof fn lemma_hex_digit_round_trip(d: int)
    requires
        0 <= d < 16,
    ensures
        hex_digit_value(hex_digit_char(d) as u8) == Some(d as u8),
        hex_digit_char(d) as u8 != 35,
        hex_digit_char(d) as u8 != 43,
        '\0' <= hex_digit_char(d) <= '\u{7f}',
{
}

proof fn lemma_hex_byte_round_trip(b: u8)
    ensures
        parse_hex_pair(hex_byte(b)[0] as u8, hex_byte(b)[1] as u8) == Some(b),
        hex_byte(b).len() == 2,
        hex_byte(b)[0] as u8 != 35,
        '\0' <= hex_byte(b)[0] <= '\u{7f}',
        '\0' <= hex_byte(b)[1] <= '\u{7f}',
{
    lemma_hex_digit_round_trip(b as int / 16);
    lemma_hex_digit_round_trip(b as int % 16);
}

/// Formatting a color as hex and reading it back gives the same color, with
/// or without the leading `#`; the bare form is the `#` form minus its `#`.
pub proof fn lemma_hex_round_trip(c: RgbColor)
    ensures
        parse_hex_color(encode_utf8(hex_string(c))) == Some(c),
        parse_hex_color(encode_utf8(hex_bare_string(c))) == Some(c),
        hex_string(c) == seq!['#'] + hex_bare_string(c),
{
    lemma_hex_byte_round_trip(c.r);
    lemma_hex_byte_round_trip(c.g);
    lemma_hex_byte_round_trip(c.b);
    let bare = hex_bare_string(c);
    let full = hex_string(c);
    assert(is_ascii_chars(bare));
    assert(is_ascii_chars(full));
    is_ascii_chars_encode_utf8(bare);
    is_ascii_chars_encode_utf8(full);
    let eb = encode_utf8(bare);
    let ef = encode_utf8(full);
    assert(eb.len() == 6);
    assert(ef.len() == 7);
    assert(ef[0] == 35u8);
    assert(ef.drop_first() =~= eb) by {
        assert forall|i: int| 0 <= i < 6 implies ef.drop_first()[i] == eb[i] by {
            assert(full[i + 1] == bare[i]);
        }
    }
    assert(eb[0] != 35u8);
    assert(strip_hashes(eb) == eb);
    assert(strip_hashes(ef) == strip_hashes(ef.drop_first()));
}

/// A hex digit character, in either case.
pub open spec fn is_hex_char(c: char) -> bool {
    ('0' <= c && c <= '9') || ('a' <= c && c <= 'f') || ('A' <= c && c <= 'F')
}

/// The characters left once every leading `#` is removed.
pub open spec fn strip_hash_chars(s: Seq<char>) -> Seq<char>
    decreases s.len(),
{
    if s.len() > 0 && s[0] == '#' {
        strip_hash_chars(s.drop_first())
    } else {
        s
    }
}

/// The bytes of an ASCII text, one per character.
pub open spec fn ascii_bytes(s: Seq<char>) -> Seq<u8> {
    s.map_values(|c: char| c as u8)
}

proof fn lemma_strip_hash_chars(cs: Seq<char>) -> (k: int)
    requires
        is_ascii_chars(cs),
    ensures
        0 <= k <= cs.len(),
        strip_hash_chars(cs) == cs.skip(k),
        strip_hashes(ascii_bytes(cs)) == ascii_bytes(cs.skip(k)),
    decreases cs.len(),
{
    if cs.len() > 0 && cs[0] == '#' {
        assert(is_ascii_chars(cs.drop_first()));
        let k1 = lemma_strip_hash_chars(cs.drop_first());
        assert(ascii_bytes(cs)[0] == 35u8);
        assert(ascii_bytes(cs).drop_first() =~= ascii_bytes(cs.drop_first()));
        assert(cs.drop_first().skip(k1) =~= cs.skip(k1 + 1));
        k1 + 1
    } else {
        if cs.len() > 0 {
            assert('\0' <= cs[0] <= '\u{7f}');
            assert(ascii_bytes(cs)[0] == cs[0] as u8);
        }
        assert(cs.skip(0) =~= cs);
        0
    }
}

proof fn lemma_hex_char(x: char)
    requires
        '\0' <= x <= '\u{7f}',
        x != '+',
    ensures
        x as u8 != 43,
        hex_digit_value(x as u8) is Some <==> is_hex_char(x),
        hex_digit_value(x as u8) matches Some(v) ==> v < 16 && hex_digit_char(v as int)
            == to_ascii_lowercase_spec(x),
{
}

proof fn lemma_hex_pair_chars(hi: char, lo: char)
    requires
        '\0' <= hi <= '\u{7f}',
        '\0' <= lo <= '\u{7f}',
        hi != '+',
        lo != '+',
    ensures
        parse_hex_pair(hi as u8, lo as u8) is Some <==> is_hex_char(hi) && is_hex_char(lo),
        parse_hex_pair(hi as u8, lo as u8) matches Some(v) ==> hex_byte(v) == seq![
            to_ascii_lowercase_spec(hi),
            to_ascii_lowercase_spec(lo),
        ],
{
    lemma_hex_char(hi);
    lemma_hex_char(lo);
    if let Some(v) = parse_hex_pair(hi as u8, lo as u8) {
        let h = hex_digit_value(hi as u8)->0;
        let l = hex_digit_value(lo as u8)->0;
        assert(v == h * 16 + l);
        assert((h * 16 + l) / 16 == h && (h * 16 + l) % 16 == l) by (nonlinear_arith)
            requires
                h < 16,
                l < 16,
        ;
        assert(hex_byte(v) =~= seq![to_ascii_lowercase_spec(hi), to_ascii_lowercase_spec(lo)]);
    }
}

/// On ASCII text with no `+`, reading a hex color succeeds exactly when six
/// hex digits remain after the leading `#`s, and the color's bare hex is
/// those six digits in lower case.
pub proof fn lemma_hex_text(s: &str)
    requires
        vstd::string::is_ascii(s),
        !s@.contains('+'),
    ensures
        ({
            let t = strip_hash_chars(s@);
            let c = parse_hex_color(s.spec_bytes());
            &&& (c is Some <==> t.len() == 6 && forall|i: int| 0 <= i < 6 ==> is_hex_char(#[trigger] t[i]))
            &&& (c matches Some(col) ==> hex_bare_string(col) == lowercase_seq(t))
        }),
{
    vstd::string::is_ascii_spec_bytes(s);
    assert(s.spec_bytes() =~= ascii_bytes(s@));
    let k = lemma_strip_hash_chars(s@);
    let t = s@.skip(k);
    let d = ascii_bytes(t);
    assert forall|i: int| 0 <= i < t.len() implies '\0' <= #[trigger] t[i] <= '\u{7f}' && t[i] != '+' by {
        assert(t[i] == s@[k + i]);
        if s@[k + i] == '+' {
            assert(s@.contains('+'));
        }
    }
    if t.len() == 6 {
        lemma_hex_pair_chars(t[0], t[1]);
        lemma_hex_pair_chars(t[2], t[3]);
        lemma_hex_pair_chars(t[4], t[5]);
        assert(d[0] == t[0] as u8 && d[1] == t[1] as u8 && d[2] == t[2] as u8);
        assert(d[3] == t[3] as u8 && d[4] == t[4] as u8 && d[5] == t[5] as u8);
        let c = parse_hex_color(s.spec_bytes());
        if c is Some {
            assert(forall|i: int| 0 <= i < 6 ==> is_hex_char(#[trigger] t[i])) by {
                assert forall|i: int| 0 <= i < 6 implies is_hex_char(#[trigger] t[i]) by {
                    if i == 0 || i == 1 {
                    } else if i == 2 || i == 3 {
                    } else {
                    }
                }
            }
            assert(hex_bare_string(c->0) =~= lowercase_seq(t));
        } else {
            if forall|i: int| 0 <= i < 6 ==> is_hex_char(#[trigger] t[i]) {
                assert(is_hex_char(t[0]) && is_hex_char(t[1]) && is_hex_char(t[2]));
                assert(is_hex_char(t[3]) && is_hex_char(t[4]) && is_hex_char(t[5]));
            }
        }
    }
}

} // verus!
