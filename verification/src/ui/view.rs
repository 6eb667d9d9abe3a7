//! What the preview and its overlays show, as styled text: each line is a
//! list of pieces, each piece a run of characters with its colors. Drawing
//! them on a terminal is left to the caller.
use vstd::prelude::*;
use crate::text::{decimal_usize, push_decimal_usize};
use crate::theme::{all_groups, hex_string, rgb, shade_channel, PaletteField, PaletteGroup, RgbColor, ThemePalette};
use crate::ui::render::{
    card_name_width, clip_text, field_leaf_label, help_max_scroll, leaf_label_spec, region_spec,
    theme_card_name_width, Region,
};
use crate::ui::picker::{Control, Picker, PickerMode};
use crate::ui::state::{
    normalize_theme_name, normalized_name, strip_leading, trim_leading_slashes, App, InputMode,
    ThemeEntry, ThemeFilter,
};

verus! {

/// A color the terminal is asked to paint with: a palette color, or one of
/// the editor's own (theme-independent) colors.
#[derive(Debug, Clone, Copy, PartialEq, Eq, Structural)]
pub enum Paint {
    /// A color of the theme being edited.
    Rgb(RgbColor),
    /// The background of the bars and overlays.
    ChromeBg,
    /// Plain text on the chrome.
    ChromeFg,
    /// Secondary text on the chrome.
    ChromeMuted,
    /// The background of highlighted keys and tabs.
    AccentBg,
    /// Text on the accent background.
    AccentFg,
    /// Overlay borders.
    Border,
    /// The rule between the help list and its notes.
    Divider,
    /// The background of secondary keys.
    SubtleBg,
    /// Text on the secondary background.
    SubtleFg,
    /// Placeholder text.
    Dim,
    /// The background of the selected field chip.
    ChipBg,
    /// The background of the highlighted finder row.
    MatchBg,
    /// Unhighlighted list text.
    ListText,
    /// The name prompt's title.
    NameTitle,
    /// The background of the highlighted loader row.
    CardBg,
    /// A highlighted loader row's detail.
    CardDetail,
    /// A loader row's detail.
    CardDetailDim,
    /// The highlighted loader row's marker.
    CardMarker,
    /// A loader row's marker.
    CardMarkerDim,
    /// The dot beside the theme that was being edited.
    ActiveDot,
    White,
    Gray,
    DarkGray,
    Red,
    Green,
}

/// A run of text in one style.
#[derive(Debug)]
pub struct Piece {
    pub text: String,
    pub fg: Option<Paint>,
    pub bg: Option<Paint>,
    pub bold: bool,
    pub dim: bool,
}

/// What a piece shows.
pub struct Shown {
    pub text: Seq<char>,
    pub fg: Option<Paint>,
    pub bg: Option<Paint>,
    pub bold: bool,
    pub dim: bool,
}

impl View for Piece {
    type V = Shown;

    open spec fn view(&self) -> Shown {
        Shown { text: self.text@, fg: self.fg, bg: self.bg, bold: self.bold, dim: self.dim }
    }
}

/// A run of `text` in the given colors, not dimmed.
pub open spec fn shown(text: Seq<char>, fg: Option<Paint>, bg: Option<Paint>, bold: bool) -> Shown {
    Shown { text, fg, bg, bold, dim: false }
}

/// What a line of pieces shows.
pub open spec fn views(line: Seq<Piece>) -> Seq<Shown> {
    line.map_values(|p: Piece| p@)
}

/// A piece of `text` in the given colors.
pub fn piece(text: &str, fg: Option<Paint>, bg: Option<Paint>, bold: bool) -> (p: Piece)
    ensures
        p@ == shown(text@, fg, bg, bold),
{
    Piece { text: String::from_str(text), fg, bg, bold, dim: false }
}

/// A piece of `text` in the given colors.
pub fn piece_of(text: String, fg: Option<Paint>, bg: Option<Paint>, bold: bool) -> (p: Piece)
    ensures
        p@ == shown(text@, fg, bg, bold),
{
    Piece { text, fg, bg, bold, dim: false }
}

/// Appends a piece to a line.
fn push_piece(line: &mut Vec<Piece>, p: Piece)
    ensures
        views(final(line)@) == views(old(line)@).push(p@),
{
    line.push(p);
    assert(views(final(line)@) =~= views(old(line)@).push(p@));
}

// ── Widths ───────────────────────────────────────────────────────────────────

/// The columns `text` takes on a terminal, as ratatui measures a span.
pub uninterp spec fn display_width(text: Seq<char>) -> usize;

/// `ratatui::text::Span::width` of a span holding `text`: its unicode display
/// width, which depends on the text alone.
#[verifier::external_body]
fn text_width(text: &str) -> (w: usize)
    ensures
        w == display_width(text@),
{
    ratatui::text::Span::raw(text).width()
}

/// The columns a line takes: the sum of its pieces' widths.
pub open spec fn widths(line: Seq<Shown>) -> int
    decreases line.len(),
{
    if line.len() == 0 {
        0
    } else {
        widths(line.drop_last()) + display_width(line.last().text)
    }
}

/// `n`, or `usize::MAX` when it does not fit.
pub open spec fn capped(n: int) -> int {
    if n > usize::MAX {
        usize::MAX as int
    } else {
        n
    }
}

/// `a - b`, or 0 when `b` is larger.
pub open spec fn minus(a: int, b: int) -> int {
    if a > b {
        a - b
    } else {
        0
    }
}

/// The columns a line takes (at most `usize::MAX`).
fn line_width(line: &Vec<Piece>) -> (w: usize)
    ensures
        w == capped(widths(views(line@))),
{
    let mut acc: usize = 0;
    let mut i: usize = 0;
    while i < line.len()
        invariant
            i <= line.len(),
            acc == capped(widths(views(line@.take(i as int)))),
        decreases line.len() - i,
    {
        let w = text_width(line[i].text.as_str());
        assert(views(line@.take(i + 1)).drop_last() =~= views(line@.take(i as int)));
        acc = acc.saturating_add(w);
        i = i + 1;
    }
    assert(line@.take(line.len() as int) =~= line@);
    acc
}

/// `n` spaces.
pub open spec fn spaces(n: int) -> Seq<char> {
    Seq::new(n as nat, |i: int| ' ')
}

fn space_string(n: usize) -> (s: String)
    ensures
        s@ == spaces(n as int),
{
    let mut s = String::new();
    let mut i: usize = 0;
    while i < n
        invariant
            i <= n,
            s@ == spaces(i as int),
        decreases n - i,
    {
        s.push(' ');
        assert(s@ =~= spaces(i + 1));
        i = i + 1;
    }
    s
}

// ── Group tabs ───────────────────────────────────────────────────────────────

/// The tab of the `i`-th group: its number and label, lit when active.
pub open spec fn group_tab(i: int, active: PaletteGroup) -> Shown {
    let g = all_groups()[i];
    let on = g == active;
    shown(
        " "@ + decimal_usize((i + 1) as nat) + " "@ + g.label_spec() + " "@,
        Some(if on { Paint::AccentFg } else { Paint::ChromeMuted }),
        Some(if on { Paint::AccentBg } else { Paint::ChromeBg }),
        on,
    )
}

/// The first `n` pieces of the tab row: tabs and the gaps after them.
pub open spec fn tabs_prefix(n: int, active: PaletteGroup) -> Seq<Shown> {
    Seq::new(
        n as nat,
        |j: int|
            if j % 2 == 0 {
                group_tab(j / 2, active)
            } else {
                shown(" "@, None, Some(Paint::ChromeBg), false)
            },
    )
}

/// The top row: the six group tabs, the active one lit, then a key hint.
pub open spec fn group_tabs_spec(active: PaletteGroup) -> Seq<Shown> {
    tabs_prefix(12, active).push(
        shown(
            "  1-6 / ←→ Tab group · ↑↓ field · / find"@,
            Some(Paint::ChromeMuted),
            Some(Paint::ChromeBg),
            false,
        ),
    )
}

impl App {
    /// The top row: the six group tabs with the selected field's group lit.
    pub fn group_tabs(&self) -> (line: Vec<Piece>)
        ensures
            views(line@) == group_tabs_spec(self.selected.group_spec()),
    {
        let active = self.selected.group();
        let groups = PaletteGroup::all();
        let mut line: Vec<Piece> = Vec::new();
        let mut i: usize = 0;
        while i < 6
            invariant
                groups@ == all_groups(),
                active == self.selected.group_spec(),
                i <= 6,
                views(line@) == tabs_prefix(2 * i, active),
            decreases 6 - i,
        {
            let g = groups[i];
            let on = g == active;
            let mut text = String::from_str(" ");
            push_decimal_usize(&mut text, i + 1);
            text.append(" ");
            text.append(g.label());
            text.append(" ");
            let fg = if on {
                Paint::AccentFg
            } else {
                Paint::ChromeMuted
            };
            let bg = if on {
                Paint::AccentBg
            } else {
                Paint::ChromeBg
            };
            push_piece(&mut line, piece_of(text, Some(fg), Some(bg), on));
            push_piece(&mut line, piece(" ", None, Some(Paint::ChromeBg), false));
            assert(views(line@) =~= tabs_prefix(2 * (i + 1), active));
            i = i + 1;
        }
        push_piece(
            &mut line,
            piece("  1-6 / ←→ Tab group · ↑↓ field · / find", Some(Paint::ChromeMuted), Some(Paint::ChromeBg), false),
        );
        line
    }
}

// ── Waybar ───────────────────────────────────────────────────────────────────

/// The clock and battery at the bar's right end.
pub open spec fn waybar_clock() -> Seq<char> {
    "  12:34   80%   "@
}

/// The bar's workspaces (the first active), led by a marker when the bar's
/// colors are being edited.
pub open spec fn waybar_head(p: ThemePalette, lit: bool) -> Seq<Shown> {
    let bg = Some(Paint::Rgb(p.waybar_background));
    let fg = Some(Paint::Rgb(p.waybar_foreground));
    let active = Paint::Rgb(p.waybar_active_workspace);
    seq![
        if lit {
            shown(" ▶ "@, Some(active), bg, true)
        } else {
            shown(" "@, None, bg, false)
        },
        shown(" 1 "@, bg, Some(active), true),
        shown(" 2 "@, fg, bg, false),
        shown(" 3 "@, fg, bg, false),
    ]
}

/// The mock bar across `width` columns: workspaces on the left, clock and
/// battery on the right, the bar's background between.
pub open spec fn waybar_spec(p: ThemePalette, lit: bool, width: u16) -> Seq<Shown> {
    let head = waybar_head(p, lit);
    let used = capped(capped(widths(head)) + waybar_clock().len());
    head.push(shown(spaces(minus(width as int, used)), None, Some(Paint::Rgb(p.waybar_background)), false)).push(
        shown(waybar_clock(), Some(Paint::Rgb(p.waybar_foreground)), Some(Paint::Rgb(p.waybar_background)), false),
    )
}

// ── Field selector ───────────────────────────────────────────────────────────

/// The `k`-th piece of a field's chip: a swatch and the field's label, boxed
/// and lit when selected.
pub open spec fn chip_piece(f: PaletteField, selected: bool, p: ThemePalette, k: int) -> Shown {
    let swatch = shown("  "@, None, Some(Paint::Rgb(f.value_in(p))), false);
    let label = " "@ + leaf_label_spec(f) + " "@;
    if selected {
        if k == 0 {
            shown("▏"@, Some(Paint::AccentFg), Some(Paint::ChipBg), false)
        } else if k == 1 {
            swatch
        } else if k == 2 {
            shown(label, Some(Paint::AccentFg), Some(Paint::ChipBg), true)
        } else if k == 3 {
            shown("▕"@, Some(Paint::AccentFg), Some(Paint::ChipBg), false)
        } else {
            shown("  "@, None, Some(Paint::ChromeBg), false)
        }
    } else {
        if k == 0 {
            shown(" "@, None, Some(Paint::ChromeBg), false)
        } else if k == 1 {
            swatch
        } else if k == 2 {
            shown(label, Some(Paint::ChromeMuted), Some(Paint::ChromeBg), false)
        } else if k == 3 {
            shown(" "@, None, Some(Paint::ChromeBg), false)
        } else {
            shown("  "@, None, Some(Paint::ChromeBg), false)
        }
    }
}

/// The chips of the first `n / 5` fields of `fields`, five pieces each.
pub open spec fn chips_prefix(fields: Seq<PaletteField>, sel: PaletteField, p: ThemePalette, n: int) -> Seq<Shown> {
    Seq::new(n as nat, |j: int| chip_piece(fields[j / 5], fields[j / 5] == sel, p, j % 5))
}

/// The row under the tabs: a chip per field of the selected field's group,
/// centered in `width` columns.
pub open spec fn field_selector_spec(sel: PaletteField, p: ThemePalette, width: u16) -> Seq<Shown> {
    let fields = sel.group_spec().fields_spec();
    let chips = chips_prefix(fields, sel, p, 5 * fields.len() as int);
    seq![shown(spaces(minus(width as int, capped(widths(chips))) / 2), None, Some(Paint::ChromeBg), false)]
        + chips
}

// ── Status bar ───────────────────────────────────────────────────────────────

/// The key hints on the status bar.
pub open spec fn status_hints() -> Seq<char> {
    " c color · y/p yank · u undo · s save · l load · a apply · / find · ? help · q quit"@
}

/// The right-hand summary: the theme's name (starred when edited), the
/// selected field and its color.
pub open spec fn status_info(name: Seq<char>, dirty: bool, f: PaletteField, c: RgbColor) -> Seq<char> {
    " "@ + name + (if dirty { "*"@ } else { ""@ }) + " · "@ + f.label_spec() + " · "@ + hex_string(c) + " "@
}

/// The bottom row across `width` columns: key hints, then a swatch and the
/// summary flush right.
pub open spec fn status_spec(a: App, width: u16) -> Seq<Shown> {
    let c = a.selected.value_in(a.theme.palette);
    let info = status_info(a.theme.name@, a.dirty, a.selected, c);
    let hints = seq![shown(status_hints(), Some(Paint::ChromeMuted), Some(Paint::ChromeBg), false)];
    let used = capped(widths(hints));
    hints + seq![
        shown(spaces(minus(width as int, capped(used + capped(info.len() as int + 2)))), None, Some(Paint::ChromeBg), false),
        shown("  "@, None, Some(Paint::Rgb(c)), false),
        shown(info, Some(Paint::ChromeFg), Some(Paint::ChromeBg), true),
    ]
}

/// The transient message laid over the hints: red for a failure (a message
/// that starts with ✗), green otherwise, and the columns it covers.
pub open spec fn status_message_spec(msg: Seq<char>, width: u16) -> (Seq<Shown>, u16) {
    let paint = if msg.len() > 0 && msg[0] == '✗' {
        Paint::Red
    } else {
        Paint::Green
    };
    let cover = ((msg.len() + 2) % 65536) as u16;
    (
        seq![shown(" "@ + msg + " "@, Some(paint), Some(Paint::ChromeBg), true)],
        if cover < width {
            cover
        } else {
            width
        },
    )
}

impl App {
    /// The mock Waybar across `width` columns.
    pub fn waybar_line(&self, width: u16) -> (line: Vec<Piece>)
        ensures
            views(line@) == waybar_spec(self.theme.palette, region_spec(self.selected) == Region::Waybar, width),
    {
        let p = &self.theme.palette;
        let bg = Paint::Rgb(p.waybar_background);
        let fg = Paint::Rgb(p.waybar_foreground);
        let active = Paint::Rgb(p.waybar_active_workspace);
        let mut line: Vec<Piece> = Vec::new();
        if self.sel(Region::Waybar) {
            push_piece(&mut line, piece(" ▶ ", Some(active), Some(bg), true));
        } else {
            push_piece(&mut line, piece(" ", None, Some(bg), false));
        }
        push_piece(&mut line, piece(" 1 ", Some(bg), Some(active), true));
        push_piece(&mut line, piece(" 2 ", Some(fg), Some(bg), false));
        push_piece(&mut line, piece(" 3 ", Some(fg), Some(bg), false));
        let ghost head = views(line@);
        assert(head =~= waybar_head(self.theme.palette, region_spec(self.selected) == Region::Waybar));
        let right = "  12:34   80%   ";
        let used = line_width(&line).saturating_add(right.unicode_len());
        let fill = (width as usize).saturating_sub(used);
        push_piece(&mut line, piece_of(space_string(fill), None, Some(bg), false));
        push_piece(&mut line, piece(right, Some(fg), Some(bg), false));
        line
    }

    /// The row of the selected group's field chips, centered in `width` columns.
    pub fn field_selector_line(&self, width: u16) -> (line: Vec<Piece>)
        ensures
            views(line@) == field_selector_spec(self.selected, self.theme.palette, width),
    {
        let fields = self.selected.group().fields();
        let palette = &self.theme.palette;
        let ghost p = self.theme.palette;
        let ghost sel = self.selected;
        let mut chips: Vec<Piece> = Vec::new();
        let mut i: usize = 0;
        while i < fields.len()
            invariant
                fields@ == sel.group_spec().fields_spec(),
                sel == self.selected,
                *palette == p,
                i <= fields.len(),
                views(chips@) == chips_prefix(fields@, sel, p, 5 * i),
            decreases fields.len() - i,
        {
            let f = fields[i];
            let selected = f == self.selected;
            let swatch = Paint::Rgb(f.get(palette));
            let mut label = String::from_str(" ");
            label.append(field_leaf_label(f));
            label.append(" ");
            if selected {
                push_piece(&mut chips, piece("▏", Some(Paint::AccentFg), Some(Paint::ChipBg), false));
                push_piece(&mut chips, piece("  ", None, Some(swatch), false));
                push_piece(&mut chips, piece_of(label, Some(Paint::AccentFg), Some(Paint::ChipBg), true));
                push_piece(&mut chips, piece("▕", Some(Paint::AccentFg), Some(Paint::ChipBg), false));
            } else {
                push_piece(&mut chips, piece(" ", None, Some(Paint::ChromeBg), false));
                push_piece(&mut chips, piece("  ", None, Some(swatch), false));
                push_piece(&mut chips, piece_of(label, Some(Paint::ChromeMuted), Some(Paint::ChromeBg), false));
                push_piece(&mut chips, piece(" ", None, Some(Paint::ChromeBg), false));
            }
            push_piece(&mut chips, piece("  ", None, Some(Paint::ChromeBg), false));
            assert(views(chips@) =~= chips_prefix(fields@, sel, p, 5 * (i + 1))) by {
                assert forall|j: int| 5 * i <= j < 5 * (i + 1) implies #[trigger] views(chips@)[j]
                    == chip_piece(fields@[j / 5], fields@[j / 5] == sel, p, j % 5) by {
                    assert(j / 5 == i);
                }
            }
            i = i + 1;
        }
        let pad = (width as usize).saturating_sub(line_width(&chips)) / 2;
        let mut line: Vec<Piece> = Vec::new();
        push_piece(&mut line, piece_of(space_string(pad), None, Some(Paint::ChromeBg), false));
        let ghost first = views(line@);
        line.append(&mut chips);
        proof {
            assert(views(line@) =~= first + chips_prefix(fields@, sel, p, 5 * fields@.len() as int));
        }
        line
    }

    /// The bottom row across `width` columns: key hints, then the selected
    /// field's swatch and a summary flush right.
    pub fn status_line(&self, width: u16) -> (line: Vec<Piece>)
        ensures
            views(line@) == status_spec(*self, width),
    {
        let color = self.current_color();
        let mut info = String::from_str(" ");
        info.append(self.theme.name.as_str());
        if self.dirty {
            info.append("*");
        } else {
            info.append("");
        }
        info.append(" · ");
        info.append(self.selected.label());
        info.append(" · ");
        info.append(color.to_hex().as_str());
        info.append(" ");
        let mut line: Vec<Piece> = Vec::new();
        push_piece(
            &mut line,
            piece(
                " c color · y/p yank · u undo · s save · l load · a apply · / find · ? help · q quit",
                Some(Paint::ChromeMuted),
                Some(Paint::ChromeBg),
                false,
            ),
        );
        let ghost hints = views(line@);
        assert(hints =~= seq![shown(status_hints(), Some(Paint::ChromeMuted), Some(Paint::ChromeBg), false)]);
        assert(info@ == status_info(self.theme.name@, self.dirty, self.selected, color));
        let right_w = info.as_str().unicode_len().saturating_add(2);
        let used = line_width(&line);
        let fill = (width as usize).saturating_sub(used.saturating_add(right_w));
        push_piece(&mut line, piece_of(space_string(fill), None, Some(Paint::ChromeBg), false));
        push_piece(&mut line, piece("  ", None, Some(Paint::Rgb(color)), false));
        push_piece(&mut line, piece_of(info, Some(Paint::ChromeFg), Some(Paint::ChromeBg), true));
        assert(views(line@) =~= status_spec(*self, width));
        line
    }

    /// The message laid over the status bar's hints, if there is one, and
    /// the columns it covers.
    pub fn status_message(&self, width: u16) -> (r: Option<(Vec<Piece>, u16)>)
        ensures
            match self.message {
                None => r is None,
                Some(m) => r matches Some((line, cover)) && (views(line@), cover) == status_message_spec(m@, width),
            },
    {
        match &self.message {
            None => None,
            Some(msg) => {
                let n = msg.as_str().unicode_len();
                let failed = n > 0 && msg.as_str().get_char(0) == '✗';
                let paint = if failed {
                    Paint::Red
                } else {
                    Paint::Green
                };
                let mut text = String::from_str(" ");
                text.append(msg.as_str());
                text.append(" ");
                let mut line: Vec<Piece> = Vec::new();
                push_piece(&mut line, piece_of(text, Some(paint), Some(Paint::ChromeBg), true));
                let cover = (n as u16).wrapping_add(2);
                assert(cover == ((n + 2) % 65536) as u16) by (bit_vector)
                    requires
                        cover == (n as u16).wrapping_add(2),
                ;
                let shown_cover = if cover < width {
                    cover
                } else {
                    width
                };
                Some((line, shown_cover))
            },
        }
    }
}

// ── Preview panels ───────────────────────────────────────────────────────────

/// What several lines show.
pub open spec fn lines_view(lines: Seq<Vec<Piece>>) -> Seq<Seq<Shown>> {
    lines.map_values(|l: Vec<Piece>| views(l@))
}

/// Appends a line to a block of lines.
fn push_line(lines: &mut Vec<Vec<Piece>>, line: Vec<Piece>)
    ensures
        lines_view(final(lines)@) == lines_view(old(lines)@).push(views(line@)),
{
    lines.push(line);
    assert(lines_view(final(lines)@) =~= lines_view(old(lines)@).push(views(line@)));
}

/// A line of one piece.
fn line_of(p: Piece) -> (line: Vec<Piece>)
    ensures
        views(line@) == seq![p@],
{
    let mut line: Vec<Piece> = Vec::new();
    push_piece(&mut line, p);
    assert(views(line@) =~= seq![p@]);
    line
}

/// A line of two pieces.
fn line_of2(p: Piece, q: Piece) -> (line: Vec<Piece>)
    ensures
        views(line@) == seq![p@, q@],
{
    let mut line: Vec<Piece> = Vec::new();
    push_piece(&mut line, p);
    push_piece(&mut line, q);
    assert(views(line@) =~= seq![p@, q@]);
    line
}

/// How a preview region is framed: in `color`, bold and with a thick border
/// while one of its fields is selected.
pub open spec fn region_frame_spec(sel: PaletteField, region: Region, color: RgbColor) -> (Paint, bool) {
    (Paint::Rgb(color), region_spec(sel) == region)
}

/// The window mock's text: darker when the window is inactive.
pub open spec fn window_lines_spec(p: ThemePalette, active: bool) -> Seq<Seq<Shown>> {
    let fg = if active {
        p.foreground
    } else {
        rgb(
            shade_channel(p.foreground.r, -40i16),
            shade_channel(p.foreground.g, -40i16),
            shade_channel(p.foreground.b, -40i16),
        )
    };
    let style = |t: Seq<char>| shown(t, Some(Paint::Rgb(fg)), Some(Paint::Rgb(p.background)), false);
    seq![
        seq![style(if active { "  ~/projects/omarchy-theme-studio"@ } else { "  ~/notes"@ })],
        seq![style(if active { "  cargo run --release"@ } else { "  it can wait…"@ })],
    ]
}

/// The launcher mock: a search line and three entries, the first selected.
pub open spec fn launcher_lines_spec(p: ThemePalette) -> Seq<Seq<Shown>> {
    let fg = Some(Paint::Rgb(p.launcher_foreground));
    let bg = Some(Paint::Rgb(p.launcher_background));
    seq![
        seq![Shown { text: " Search…"@, fg, bg, bold: false, dim: true }],
        seq![shown(" Firefox"@, Some(Paint::Rgb(p.launcher_selected_foreground)), Some(Paint::Rgb(p.launcher_selected_background)), true)],
        seq![shown(" Terminal"@, fg, bg, false)],
        seq![shown(" Files"@, fg, bg, false)],
    ]
}

/// The terminal mock: a command, its output and a prompt.
pub open spec fn terminal_lines_spec(p: ThemePalette) -> Seq<Seq<Shown>> {
    let fg = Some(Paint::Rgb(p.terminal_foreground));
    let bg = Some(Paint::Rgb(p.terminal_background));
    let prompt = shown(" $ "@, Some(Paint::Rgb(p.accent)), bg, false);
    seq![
        seq![prompt, shown("omarchy-theme-set mytheme"@, fg, bg, false)],
        seq![shown("  ✓ applied"@, fg, bg, false)],
        seq![prompt, shown("█"@, fg, bg, false)],
    ]
}

/// The notification mock.
pub open spec fn notification_lines_spec(p: ThemePalette) -> Seq<Seq<Shown>> {
    let fg = Some(Paint::Rgb(p.foreground));
    let bg = Some(Paint::Rgb(p.notification_background));
    seq![
        seq![shown(" 🔔 Theme exported"@, fg, bg, true)],
        seq![shown(" ~/.config/omarchy"@, fg, bg, false)],
    ]
}

/// The banner over the desktop while a desktop color is selected.
pub open spec fn desktop_banner_spec(p: ThemePalette, sel: PaletteField) -> Seq<Shown> {
    seq![
        shown(" Desktop "@, Some(Paint::Rgb(p.background)), Some(Paint::Rgb(p.accent)), true),
        shown(
            "  background / foreground / accent · editing "@ + sel.label_spec() + " "@,
            Some(Paint::Rgb(p.foreground)),
            Some(Paint::Rgb(p.background)),
            false,
        ),
    ]
}

impl App {
    /// How a preview region is framed: in `color`, lit while selected.
    pub fn region_frame(&self, region: Region, color: RgbColor) -> (r: (Paint, bool))
        ensures
            r == region_frame_spec(self.selected, region, color),
    {
        (Paint::Rgb(color), self.sel(region))
    }

    /// The active or inactive window mock's text.
    pub fn window_lines(&self, active: bool) -> (lines: Vec<Vec<Piece>>)
        ensures
            lines_view(lines@) == window_lines_spec(self.theme.palette, active),
    {
        let p = &self.theme.palette;
        let fg = if active {
            p.foreground
        } else {
            p.foreground.shade(-40)
        };
        let bg = Some(Paint::Rgb(p.background));
        let mut lines: Vec<Vec<Piece>> = Vec::new();
        let first = if active {
            "  ~/projects/omarchy-theme-studio"
        } else {
            "  ~/notes"
        };
        let second = if active {
            "  cargo run --release"
        } else {
            "  it can wait…"
        };
        push_line(&mut lines, line_of(piece(first, Some(Paint::Rgb(fg)), bg, false)));
        push_line(&mut lines, line_of(piece(second, Some(Paint::Rgb(fg)), bg, false)));
        assert(lines_view(lines@) =~= window_lines_spec(self.theme.palette, active));
        lines
    }

    /// The launcher mock's rows.
    pub fn launcher_lines(&self) -> (lines: Vec<Vec<Piece>>)
        ensures
            lines_view(lines@) == launcher_lines_spec(self.theme.palette),
    {
        let p = &self.theme.palette;
        let fg = Some(Paint::Rgb(p.launcher_foreground));
        let bg = Some(Paint::Rgb(p.launcher_background));
        let mut lines: Vec<Vec<Piece>> = Vec::new();
        let search = Piece { text: String::from_str(" Search…"), fg, bg, bold: false, dim: true };
        push_line(&mut lines, line_of(search));
        push_line(
            &mut lines,
            line_of(piece(" Firefox", Some(Paint::Rgb(p.launcher_selected_foreground)), Some(Paint::Rgb(p.launcher_selected_background)), true)),
        );
        push_line(&mut lines, line_of(piece(" Terminal", fg, bg, false)));
        push_line(&mut lines, line_of(piece(" Files", fg, bg, false)));
        assert(lines_view(lines@) =~= launcher_lines_spec(self.theme.palette));
        lines
    }

    /// The terminal mock's lines.
    pub fn terminal_lines(&self) -> (lines: Vec<Vec<Piece>>)
        ensures
            lines_view(lines@) == terminal_lines_spec(self.theme.palette),
    {
        let p = &self.theme.palette;
        let fg = Some(Paint::Rgb(p.terminal_foreground));
        let bg = Some(Paint::Rgb(p.terminal_background));
        let accent = Some(Paint::Rgb(p.accent));
        let mut lines: Vec<Vec<Piece>> = Vec::new();
        push_line(&mut lines, line_of2(piece(" $ ", accent, bg, false), piece("omarchy-theme-set mytheme", fg, bg, false)));
        push_line(&mut lines, line_of(piece("  ✓ applied", fg, bg, false)));
        push_line(&mut lines, line_of2(piece(" $ ", accent, bg, false), piece("█", fg, bg, false)));
        assert(lines_view(lines@) =~= terminal_lines_spec(self.theme.palette));
        lines
    }

    /// The notification mock's lines.
    pub fn notification_lines(&self) -> (lines: Vec<Vec<Piece>>)
        ensures
            lines_view(lines@) == notification_lines_spec(self.theme.palette),
    {
        let p = &self.theme.palette;
        let fg = Some(Paint::Rgb(p.foreground));
        let bg = Some(Paint::Rgb(p.notification_background));
        let mut lines: Vec<Vec<Piece>> = Vec::new();
        push_line(&mut lines, line_of(piece(" 🔔 Theme exported", fg, bg, true)));
        push_line(&mut lines, line_of(piece(" ~/.config/omarchy", fg, bg, false)));
        assert(lines_view(lines@) =~= notification_lines_spec(self.theme.palette));
        lines
    }

    /// The banner shown over the desktop while a desktop color is selected.
    pub fn desktop_banner(&self) -> (line: Vec<Piece>)
        ensures
            views(line@) == desktop_banner_spec(self.theme.palette, self.selected),
    {
        let p = &self.theme.palette;
        let mut text = String::from_str("  background / foreground / accent · editing ");
        text.append(self.selected.label());
        text.append(" ");
        line_of2(
            piece(" Desktop ", Some(Paint::Rgb(p.background)), Some(Paint::Rgb(p.accent)), true),
            piece_of(text, Some(Paint::Rgb(p.foreground)), Some(Paint::Rgb(p.background)), false),
        )
    }
}

// ── Overlays ─────────────────────────────────────────────────────────────────

/// A panel drawn over the preview.
#[derive(Debug, Clone, Copy, PartialEq, Eq, Structural)]
pub enum Overlay {
    ColorPicker,
    ThemeName,
    ApplyConfirm,
    FieldSearch,
    ThemeLoad,
    UpdateRestart,
    Help,
}

/// The panels drawn over the preview in each mode, bottom first. Renaming a
/// saved theme shows the name prompt over the loader.
pub open spec fn overlays_spec(mode: InputMode) -> Seq<Overlay> {
    match mode {
        InputMode::Preview => seq![],
        InputMode::ColorPicker => seq![Overlay::ColorPicker],
        InputMode::ThemeNameInput => seq![Overlay::ThemeName],
        InputMode::ApplyConfirm => seq![Overlay::ApplyConfirm],
        InputMode::FieldSearch => seq![Overlay::FieldSearch],
        InputMode::ThemeLoad => seq![Overlay::ThemeLoad],
        InputMode::ThemeLoadRename => seq![Overlay::ThemeLoad, Overlay::ThemeName],
        InputMode::ThemeLoadDeleteConfirm => seq![Overlay::ThemeLoad],
        InputMode::UpdateRestartConfirm => seq![Overlay::UpdateRestart],
        InputMode::Help => seq![Overlay::Help],
    }
}

/// The panels drawn over the preview in `mode`, bottom first.
pub fn overlays(mode: InputMode) -> (r: Vec<Overlay>)
    ensures
        r@ == overlays_spec(mode),
{
    match mode {
        InputMode::Preview => vec![],
        InputMode::ColorPicker => vec![Overlay::ColorPicker],
        InputMode::ThemeNameInput => vec![Overlay::ThemeName],
        InputMode::ApplyConfirm => vec![Overlay::ApplyConfirm],
        InputMode::FieldSearch => vec![Overlay::FieldSearch],
        InputMode::ThemeLoad => vec![Overlay::ThemeLoad],
        InputMode::ThemeLoadRename => vec![Overlay::ThemeLoad, Overlay::ThemeName],
        InputMode::ThemeLoadDeleteConfirm => vec![Overlay::ThemeLoad],
        InputMode::UpdateRestartConfirm => vec![Overlay::UpdateRestart],
        InputMode::Help => vec![Overlay::Help],
    }
}

/// An empty line.
pub open spec fn blank() -> Seq<Shown> {
    seq![shown(""@, None, None, false)]
}

/// A key cap.
pub open spec fn key_cap(k: Seq<char>) -> Shown {
    shown(k, Some(Paint::AccentFg), Some(Paint::AccentBg), true)
}

/// A secondary key cap.
pub open spec fn subtle_cap(k: Seq<char>) -> Shown {
    shown(k, Some(Paint::SubtleFg), Some(Paint::SubtleBg), true)
}

/// Muted text.
pub open spec fn muted(t: Seq<char>) -> Shown {
    shown(t, Some(Paint::ChromeMuted), None, false)
}

fn blank_line() -> (line: Vec<Piece>)
    ensures
        views(line@) == blank(),
{
    line_of(piece("", None, None, false))
}

fn key_piece(k: &str) -> (p: Piece)
    ensures
        p@ == key_cap(k@),
{
    piece(k, Some(Paint::AccentFg), Some(Paint::AccentBg), true)
}

fn subtle_piece(k: &str) -> (p: Piece)
    ensures
        p@ == subtle_cap(k@),
{
    piece(k, Some(Paint::SubtleFg), Some(Paint::SubtleBg), true)
}

fn muted_piece(t: &str) -> (p: Piece)
    ensures
        p@ == muted(t@),
{
    piece(t, Some(Paint::ChromeMuted), None, false)
}

/// The apply prompt: the command about to run, under the theme's normalized
/// name, and its keys.
pub open spec fn apply_confirm_spec(name: Seq<char>) -> Seq<Seq<Shown>> {
    seq![
        seq![shown(" Run omarchy-theme-set \""@ + normalized_name(name) + "\"?"@, Some(Paint::ChromeFg), None, true)],
        blank(),
        seq![muted(" This exports the theme and switches your live desktop."@)],
        blank(),
        seq![key_cap(" y "@), muted(" apply now    "@), key_cap(" n "@), muted(" cancel"@)],
    ]
}

/// The name prompt: the typed name, the directory it will be written to
/// (or `<invalid>` when the name has no usable characters), and the keys.
pub open spec fn name_prompt_spec(input: Seq<char>) -> Seq<Seq<Shown>> {
    let n = normalized_name(input);
    let dir = if n.len() == 0 {
        "<invalid>"@
    } else {
        "~/.config/omarchy/themes/"@ + n + "/"@
    };
    seq![
        seq![shown(" Export theme as "@, None, None, false)],
        blank(),
        seq![shown(" Name: "@, Some(Paint::NameTitle), None, false), shown(input + "_"@, Some(Paint::White), None, true)],
        seq![shown(" Dir:  "@, Some(Paint::DarkGray), None, false), shown(dir, Some(Paint::Gray), None, false)],
        blank(),
        seq![shown(" Letters, numbers, spaces, - and _ are allowed"@, Some(Paint::DarkGray), None, false)],
        seq![shown(" Enter: export  Esc: cancel  Backspace: delete"@, Some(Paint::DarkGray), None, false)],
    ]
}

/// The prompt after an update was installed.
pub open spec fn update_restart_spec() -> Seq<Seq<Shown>> {
    seq![
        seq![shown(" The new build is ready."@, Some(Paint::ChromeFg), None, true)],
        blank(),
        seq![muted(" Restart now to launch the updated binary, or choose later and keep working."@)],
        blank(),
        seq![key_cap(" Enter "@), muted(" restart now  "@), subtle_cap(" L "@), muted(" later"@)],
    ]
}

/// `s` padded with spaces to `n` characters.
pub open spec fn pad_right(s: Seq<char>, n: int) -> Seq<char> {
    s + spaces(minus(n, s.len() as int))
}

fn pad_string(s: &str, n: usize) -> (r: String)
    ensures
        r@ == pad_right(s@, n as int),
{
    let len = s.unicode_len();
    let mut r = String::from_str(s);
    let fill = n.saturating_sub(len);
    r.append(space_string(fill).as_str());
    r
}

/// The finder's query line.
pub open spec fn finder_query_spec(query: Seq<char>) -> Seq<Shown> {
    seq![
        shown(" › "@, Some(Paint::AccentFg), Some(Paint::ChromeBg), false),
        shown(query + "_"@, Some(Paint::ChromeFg), Some(Paint::ChromeBg), true),
    ]
}

/// A finder row: a marker when highlighted, the field's color, its group
/// and its label.
pub open spec fn finder_row_spec(f: PaletteField, p: ThemePalette, lit: bool) -> Seq<Shown> {
    let bg = Some(if lit { Paint::MatchBg } else { Paint::ChromeBg });
    seq![
        shown(if lit { " ▸ "@ } else { "   "@ }, Some(Paint::AccentFg), bg, false),
        shown("● "@, Some(Paint::Rgb(f.value_in(p))), bg, false),
        shown(pad_right(f.group_spec().label_spec(), 13), Some(Paint::ChromeMuted), bg, false),
        shown(f.label_spec(), Some(if lit { Paint::ChromeFg } else { Paint::ListText }), bg, lit),
    ]
}

/// What the finder shows when nothing matches.
pub open spec fn finder_empty_spec() -> Seq<Shown> {
    seq![muted("   no match"@)]
}

impl App {
    /// The apply prompt's lines.
    pub fn apply_confirm_lines(&self) -> (lines: Vec<Vec<Piece>>)
        ensures
            lines_view(lines@) == apply_confirm_spec(self.theme.name@),
    {
        let name = normalize_theme_name(self.theme.name.as_str());
        let mut first = String::from_str(" Run omarchy-theme-set \"");
        first.append(name.as_str());
        first.append("\"?");
        let mut keys: Vec<Piece> = Vec::new();
        push_piece(&mut keys, key_piece(" y "));
        push_piece(&mut keys, muted_piece(" apply now    "));
        push_piece(&mut keys, key_piece(" n "));
        push_piece(&mut keys, muted_piece(" cancel"));
        assert(views(keys@) =~= seq![key_cap(" y "@), muted(" apply now    "@), key_cap(" n "@), muted(" cancel"@)]);
        let mut lines: Vec<Vec<Piece>> = Vec::new();
        push_line(&mut lines, line_of(piece_of(first, Some(Paint::ChromeFg), None, true)));
        push_line(&mut lines, blank_line());
        push_line(&mut lines, line_of(muted_piece(" This exports the theme and switches your live desktop.")));
        push_line(&mut lines, blank_line());
        push_line(&mut lines, keys);
        assert(lines_view(lines@) =~= apply_confirm_spec(self.theme.name@));
        lines
    }

    /// The name prompt's lines.
    pub fn name_prompt_lines(&self) -> (lines: Vec<Vec<Piece>>)
        ensures
            lines_view(lines@) == name_prompt_spec(self.theme_name_input@),
    {
        let preview = normalize_theme_name(self.theme_name_input.as_str());
        let dir = if preview.as_str().is_empty() {
            String::from_str("<invalid>")
        } else {
            let mut d = String::from_str("~/.config/omarchy/themes/");
            d.append(preview.as_str());
            d.append("/");
            d
        };
        let mut typed = self.theme_name_input.clone();
        typed.append("_");
        let dark = Some(Paint::DarkGray);
        let mut lines: Vec<Vec<Piece>> = Vec::new();
        push_line(&mut lines, line_of(piece(" Export theme as ", None, None, false)));
        push_line(&mut lines, blank_line());
        push_line(
            &mut lines,
            line_of2(piece(" Name: ", Some(Paint::NameTitle), None, false), piece_of(typed, Some(Paint::White), None, true)),
        );
        push_line(&mut lines, line_of2(piece(" Dir:  ", dark, None, false), piece_of(dir, Some(Paint::Gray), None, false)));
        push_line(&mut lines, blank_line());
        push_line(&mut lines, line_of(piece(" Letters, numbers, spaces, - and _ are allowed", dark, None, false)));
        push_line(&mut lines, line_of(piece(" Enter: export  Esc: cancel  Backspace: delete", dark, None, false)));
        assert(lines_view(lines@) =~= name_prompt_spec(self.theme_name_input@));
        lines
    }

    /// The finder's row for field `f`, marked when highlighted.
    pub fn finder_row(&self, f: PaletteField, lit: bool) -> (line: Vec<Piece>)
        ensures
            views(line@) == finder_row_spec(f, self.theme.palette, lit),
    {
        let bg = Some(if lit {
            Paint::MatchBg
        } else {
            Paint::ChromeBg
        });
        let mut line: Vec<Piece> = Vec::new();
        push_piece(&mut line, piece(if lit { " ▸ " } else { "   " }, Some(Paint::AccentFg), bg, false));
        push_piece(&mut line, piece("● ", Some(Paint::Rgb(f.get(&self.theme.palette))), bg, false));
        push_piece(&mut line, piece_of(pad_string(f.group().label(), 13), Some(Paint::ChromeMuted), bg, false));
        push_piece(
            &mut line,
            piece(f.label(), Some(if lit { Paint::ChromeFg } else { Paint::ListText }), bg, lit),
        );
        assert(views(line@) =~= finder_row_spec(f, self.theme.palette, lit));
        line
    }

    /// The finder's query line.
    pub fn finder_query(&self) -> (line: Vec<Piece>)
        ensures
            views(line@) == finder_query_spec(self.field_search_query@),
    {
        let mut q = self.field_search_query.clone();
        q.append("_");
        line_of2(
            piece(" › ", Some(Paint::AccentFg), Some(Paint::ChromeBg), false),
            piece_of(q, Some(Paint::ChromeFg), Some(Paint::ChromeBg), true),
        )
    }
}

/// The update prompt's lines.
pub fn update_restart_lines() -> (lines: Vec<Vec<Piece>>)
    ensures
        lines_view(lines@) == update_restart_spec(),
{
    let mut keys: Vec<Piece> = Vec::new();
    push_piece(&mut keys, key_piece(" Enter "));
    push_piece(&mut keys, muted_piece(" restart now  "));
    push_piece(&mut keys, subtle_piece(" L "));
    push_piece(&mut keys, muted_piece(" later"));
    assert(views(keys@) =~= seq![key_cap(" Enter "@), muted(" restart now  "@), subtle_cap(" L "@), muted(" later"@)]);
    let mut lines: Vec<Vec<Piece>> = Vec::new();
    push_line(&mut lines, line_of(piece(" The new build is ready.", Some(Paint::ChromeFg), None, true)));
    push_line(&mut lines, blank_line());
    push_line(
        &mut lines,
        line_of(muted_piece(" Restart now to launch the updated binary, or choose later and keep working.")),
    );
    push_line(&mut lines, blank_line());
    push_line(&mut lines, keys);
    assert(lines_view(lines@) =~= update_restart_spec());
    lines
}

/// What the finder shows when nothing matches.
pub fn finder_empty_line() -> (line: Vec<Piece>)
    ensures
        views(line@) == finder_empty_spec(),
{
    line_of(muted_piece("   no match"))
}

// ── Help ─────────────────────────────────────────────────────────────────────

/// A section heading of the help list.
pub open spec fn help_section(title: Seq<char>) -> Seq<Shown> {
    seq![shown(" "@, None, Some(Paint::ChromeBg), false), key_cap(" "@ + title + " "@)]
}

/// A key and what it does.
pub open spec fn help_entry(key: Seq<char>, what: Seq<char>) -> Seq<Shown> {
    seq![
        shown(" "@, None, Some(Paint::ChromeBg), false),
        shown(pad_right(key, 18), Some(Paint::ChromeFg), None, true),
        muted(what),
    ]
}

/// The help list: the editor's keys, the color picker's and the loader's.
pub open spec fn help_list_spec() -> Seq<Seq<Shown>> {
    seq![
        help_section("Editor"@),
        help_entry("1–6"@, "Jump to a palette group"@),
        help_entry("← → / Tab"@, "Previous / next group"@),
        help_entry("↑/k ↓/j"@, "Field within the current group"@),
        help_entry("/"@, "Find a field (fuzzy search)"@),
        help_entry("c / Enter"@, "Open color picker for selected field"@),
        help_entry("y"@, "Yank (copy) current color"@),
        help_entry("p"@, "Paste yanked color"@),
        help_entry("u"@, "Undo last color change"@),
        help_entry("s"@, "Export theme to ~/.config/omarchy/themes"@),
        help_entry("l"@, "Open theme loader"@),
        help_entry("a"@, "Apply via omarchy-theme-set (confirmed)"@),
        help_entry("U"@, "Install latest release when available"@),
        help_entry("?"@, "Toggle this help screen"@),
        help_entry("q / Esc"@, "Quit"@),
        blank(),
        help_section("Color Picker"@),
        help_entry("Tab / Shift+Tab"@, "Move focus between controls"@),
        help_entry("m"@, "Switch RGB / HSL sliders"@),
        help_entry("← → ↑ ↓"@, "Nudge the focused control"@),
        help_entry("Shift / Alt"@, "Coarse / fine nudging"@),
        help_entry("Enter"@, "Edit the hex field or keep the color"@),
        help_entry("#"@, "Jump to hex field editing"@),
        help_entry("Esc"@, "Cancel"@),
        blank(),
        help_section("Theme Loader"@),
        help_entry("type"@, "Search and filter themes"@),
        help_entry("Enter / ↓"@, "Commit search and move into results"@),
        help_entry("↑ ↓"@, "Navigate themes"@),
        help_entry("Enter"@, "Load selected theme into editor"@),
        help_entry("d"@, "Filter built-in themes"@),
        help_entry("s"@, "Filter saved themes"@),
        help_entry("r"@, "Rename selected saved theme"@),
        help_entry("x"@, "Delete selected saved theme"@),
        help_entry("Esc"@, "Clear search or cancel"@),
    ]
}

/// `s` padded on the left with spaces to `n` characters.
pub open spec fn pad_left(s: Seq<char>, n: int) -> Seq<char> {
    spaces(minus(n, s.len() as int)) + s
}

/// The help panel's title row across `width` columns, with the row count
/// flush right.
pub open spec fn help_header_spec(width: u16) -> Seq<Shown> {
    let title = seq![shown(" omarchy-theme-studio · Help "@, Some(Paint::ChromeFg), None, true)];
    let count = seq![muted(pad_left(decimal_usize(help_list_spec().len()), 2) + " rows"@)];
    let used = capped(capped(widths(title)) + capped(widths(count)));
    title + seq![shown(spaces(minus(width as int, used)), None, Some(Paint::ChromeBg), false)] + count
}

/// The help panel's key hints, over the list.
pub open spec fn help_hints_spec() -> Seq<Shown> {
    seq![key_cap(" ↑↓ "@), muted(" scroll  "@), subtle_cap(" PgUp/PgDn "@), muted(" jump"@)]
}

/// The help panel's footer.
pub open spec fn help_footer_spec() -> Seq<Shown> {
    seq![
        key_cap(" ↑↓ "@),
        muted(" scroll  "@),
        subtle_cap(" Home/End "@),
        muted(" jump  "@),
        key_cap(" Esc "@),
        muted(" close"@),
    ]
}

/// The notes beside the list, ending with where the list is scrolled to:
/// lit when the list does not fit in `visible` rows.
pub open spec fn help_notes_spec(scroll: u16, visible: int) -> Seq<Seq<Shown>> {
    let n = help_list_spec().len() as int;
    let heading = |t: Seq<char>| seq![shown(t, Some(Paint::ChromeMuted), None, true)];
    let text = |t: Seq<char>| seq![shown(t, Some(Paint::ChromeFg), None, false)];
    let at = if scroll < u16::MAX { scroll + 1 } else { u16::MAX as int };
    seq![
        heading(" Exports"@),
        text(" Saving writes a real Omarchy theme dir: colors.toml, hyprland.conf, waybar.css, walker.css, ghostty.conf, README.md."@),
        blank(),
        heading(" Apply"@),
        text(" 'a' runs omarchy-theme-set only after you confirm. Nothing is applied automatically."@),
        blank(),
        seq![
            shown(
                " Showing from row "@ + decimal_usize(at as nat) + " of "@ + decimal_usize(n as nat),
                Some(if help_max_scroll(n, visible) > 0 { Paint::AccentFg } else { Paint::ChromeFg }),
                None,
                false,
            ),
        ],
    ]
}

fn help_section_line(title: &str) -> (line: Vec<Piece>)
    ensures
        views(line@) == help_section(title@),
{
    let mut t = String::from_str(" ");
    t.append(title);
    t.append(" ");
    line_of2(
        piece(" ", None, Some(Paint::ChromeBg), false),
        piece_of(t, Some(Paint::AccentFg), Some(Paint::AccentBg), true),
    )
}

fn help_entry_line(key: &str, what: &str) -> (line: Vec<Piece>)
    ensures
        views(line@) == help_entry(key@, what@),
{
    let mut line: Vec<Piece> = Vec::new();
    push_piece(&mut line, piece(" ", None, Some(Paint::ChromeBg), false));
    push_piece(&mut line, piece_of(pad_string(key, 18), Some(Paint::ChromeFg), None, true));
    push_piece(&mut line, muted_piece(what));
    assert(views(line@) =~= help_entry(key@, what@));
    line
}

/// The help list, a line per row.
pub fn help_list() -> (lines: Vec<Vec<Piece>>)
    ensures
        lines_view(lines@) == help_list_spec(),
{
    let mut l: Vec<Vec<Piece>> = Vec::new();
    push_line(&mut l, help_section_line("Editor"));
    push_line(&mut l, help_entry_line("1–6", "Jump to a palette group"));
    push_line(&mut l, help_entry_line("← → / Tab", "Previous / next group"));
    push_line(&mut l, help_entry_line("↑/k ↓/j", "Field within the current group"));
    push_line(&mut l, help_entry_line("/", "Find a field (fuzzy search)"));
    push_line(&mut l, help_entry_line("c / Enter", "Open color picker for selected field"));
    push_line(&mut l, help_entry_line("y", "Yank (copy) current color"));
    push_line(&mut l, help_entry_line("p", "Paste yanked color"));
    push_line(&mut l, help_entry_line("u", "Undo last color change"));
    push_line(&mut l, help_entry_line("s", "Export theme to ~/.config/omarchy/themes"));
    push_line(&mut l, help_entry_line("l", "Open theme loader"));
    push_line(&mut l, help_entry_line("a", "Apply via omarchy-theme-set (confirmed)"));
    push_line(&mut l, help_entry_line("U", "Install latest release when available"));
    push_line(&mut l, help_entry_line("?", "Toggle this help screen"));
    push_line(&mut l, help_entry_line("q / Esc", "Quit"));
    push_line(&mut l, blank_line());
    push_line(&mut l, help_section_line("Color Picker"));
    push_line(&mut l, help_entry_line("Tab / Shift+Tab", "Move focus between controls"));
    push_line(&mut l, help_entry_line("m", "Switch RGB / HSL sliders"));
    push_line(&mut l, help_entry_line("← → ↑ ↓", "Nudge the focused control"));
    push_line(&mut l, help_entry_line("Shift / Alt", "Coarse / fine nudging"));
    push_line(&mut l, help_entry_line("Enter", "Edit the hex field or keep the color"));
    push_line(&mut l, help_entry_line("#", "Jump to hex field editing"));
    push_line(&mut l, help_entry_line("Esc", "Cancel"));
    push_line(&mut l, blank_line());
    push_line(&mut l, help_section_line("Theme Loader"));
    push_line(&mut l, help_entry_line("type", "Search and filter themes"));
    push_line(&mut l, help_entry_line("Enter / ↓", "Commit search and move into results"));
    push_line(&mut l, help_entry_line("↑ ↓", "Navigate themes"));
    push_line(&mut l, help_entry_line("Enter", "Load selected theme into editor"));
    push_line(&mut l, help_entry_line("d", "Filter built-in themes"));
    push_line(&mut l, help_entry_line("s", "Filter saved themes"));
    push_line(&mut l, help_entry_line("r", "Rename selected saved theme"));
    push_line(&mut l, help_entry_line("x", "Delete selected saved theme"));
    push_line(&mut l, help_entry_line("Esc", "Clear search or cancel"));
    assert(lines_view(l@) =~= help_list_spec());
    l
}

/// The number of rows in the help list.
pub fn help_row_count() -> (n: usize)
    ensures
        n == help_list_spec().len(),
{
    35
}

fn count_label(n: usize, width: usize, suffix: &str) -> (s: String)
    ensures
        s@ == pad_left(decimal_usize(n as nat), width as int) + suffix@,
{
    let mut digits = String::new();
    push_decimal_usize(&mut digits, n);
    let len = digits.as_str().unicode_len();
    let mut s = space_string(width.saturating_sub(len));
    s.append(digits.as_str());
    s.append(suffix);
    proof {
        assert(digits@ == decimal_usize(n as nat));
    }
    s
}

/// The help panel's title row across `width` columns.
pub fn help_header(width: u16) -> (line: Vec<Piece>)
    ensures
        views(line@) == help_header_spec(width),
{
    let title = line_of(piece(" omarchy-theme-studio · Help ", Some(Paint::ChromeFg), None, true));
    let mut count = line_of(muted_piece(count_label(help_row_count(), 2, " rows").as_str()));
    let ghost tv = views(title@);
    let ghost cv = views(count@);
    assert(tv =~= seq![shown(" omarchy-theme-studio · Help "@, Some(Paint::ChromeFg), None, true)]);
    assert(cv =~= seq![muted(pad_left(decimal_usize(help_list_spec().len()), 2) + " rows"@)]);
    let used = line_width(&title).saturating_add(line_width(&count));
    let gap = (width as usize).saturating_sub(used);
    let mut line = title;
    push_piece(&mut line, piece_of(space_string(gap), None, Some(Paint::ChromeBg), false));
    let ghost before = views(line@);
    line.append(&mut count);
    assert(views(line@) =~= before + cv);
    assert(views(line@) =~= help_header_spec(width));
    line
}

/// The help panel's key hints.
pub fn help_hints() -> (line: Vec<Piece>)
    ensures
        views(line@) == help_hints_spec(),
{
    let mut line: Vec<Piece> = Vec::new();
    push_piece(&mut line, key_piece(" ↑↓ "));
    push_piece(&mut line, muted_piece(" scroll  "));
    push_piece(&mut line, subtle_piece(" PgUp/PgDn "));
    push_piece(&mut line, muted_piece(" jump"));
    assert(views(line@) =~= help_hints_spec());
    line
}

/// The help panel's footer.
pub fn help_footer() -> (line: Vec<Piece>)
    ensures
        views(line@) == help_footer_spec(),
{
    let mut line: Vec<Piece> = Vec::new();
    push_piece(&mut line, key_piece(" ↑↓ "));
    push_piece(&mut line, muted_piece(" scroll  "));
    push_piece(&mut line, subtle_piece(" Home/End "));
    push_piece(&mut line, muted_piece(" jump  "));
    push_piece(&mut line, key_piece(" Esc "));
    push_piece(&mut line, muted_piece(" close"));
    assert(views(line@) =~= help_footer_spec());
    line
}

/// The notes beside the help list, for the list scrolled to `scroll` in
/// `visible` rows.
pub fn help_notes(scroll: u16, visible: usize) -> (lines: Vec<Vec<Piece>>)
    ensures
        lines_view(lines@) == help_notes_spec(scroll, visible as int),
{
    let n = help_row_count();
    let mut at = String::from_str(" Showing from row ");
    push_decimal_usize(&mut at, scroll.saturating_add(1) as usize);
    at.append(" of ");
    push_decimal_usize(&mut at, n);
    let lit = n > visible;
    let mut lines: Vec<Vec<Piece>> = Vec::new();
    push_line(&mut lines, line_of(piece(" Exports", Some(Paint::ChromeMuted), None, true)));
    push_line(
        &mut lines,
        line_of(
            piece(
                " Saving writes a real Omarchy theme dir: colors.toml, hyprland.conf, waybar.css, walker.css, ghostty.conf, README.md.",
                Some(Paint::ChromeFg),
                None,
                false,
            ),
        ),
    );
    push_line(&mut lines, blank_line());
    push_line(&mut lines, line_of(piece(" Apply", Some(Paint::ChromeMuted), None, true)));
    push_line(
        &mut lines,
        line_of(
            piece(
                " 'a' runs omarchy-theme-set only after you confirm. Nothing is applied automatically.",
                Some(Paint::ChromeFg),
                None,
                false,
            ),
        ),
    );
    push_line(&mut lines, blank_line());
    push_line(
        &mut lines,
        line_of(piece_of(at, Some(if lit { Paint::AccentFg } else { Paint::ChromeFg }), None, false)),
    );
    assert(lines_view(lines@) =~= help_notes_spec(scroll, visible as int));
    lines
}

// ── Theme loader ─────────────────────────────────────────────────────────────

/// The loader's title row across `width` columns: the title, the search
/// (a placeholder while empty, with a cursor while typing) and the count of
/// listed themes.
pub open spec fn loader_header_spec(query: Seq<char>, focused: bool, listed: int, width: u16) -> Seq<Shown> {
    let q = strip_leading(query, '/');
    let title = seq![shown(" Themes "@, Some(Paint::ChromeFg), None, true)];
    let count = seq![muted(pad_left(decimal_usize(listed as nat), 2) + " matches"@)];
    let search = seq![
        shown(
            " / "@ + if q.len() == 0 {
                "(type to filter)"@
            } else if focused {
                q + "_"@
            } else {
                q
            },
            Some(if q.len() == 0 { Paint::Dim } else { Paint::ChromeFg }),
            None,
            false,
        ),
    ];
    let used = capped(capped(capped(widths(title)) + capped(widths(search))) + capped(widths(count)));
    title + seq![shown(spaces(minus(width as int, used)), None, Some(Paint::ChromeBg), false)] + search
        + seq![shown("  "@, None, Some(Paint::ChromeBg), false)] + count
}

/// A filter toggle: its key and label, lit when it is the active filter.
pub open spec fn filter_pill(key: Seq<char>, label: Seq<char>, on: bool) -> Seq<Shown> {
    let key_bg = if on { Paint::AccentBg } else { Paint::SubtleBg };
    let key_fg = if on { Paint::AccentFg } else { Paint::SubtleFg };
    let label_bg = if on { Paint::SubtleBg } else { Paint::ChromeBg };
    let label_fg = if on { Paint::SubtleFg } else { Paint::ChromeMuted };
    seq![
        shown(""@, Some(key_bg), Some(Paint::ChromeBg), false),
        shown(" "@ + key + " "@, Some(key_fg), Some(key_bg), true),
        shown(""@, Some(label_bg), Some(key_bg), false),
        shown(" "@ + label + " "@, Some(label_fg), Some(label_bg), false),
        shown(""@, Some(label_bg), Some(Paint::ChromeBg), false),
        shown(" "@, None, None, false),
    ]
}

/// The filter row: all, built-in, saved.
pub open spec fn filter_row_spec(filter: ThemeFilter) -> Seq<Shown> {
    filter_pill("A"@, "all"@, filter == ThemeFilter::All) + filter_pill("D"@, "built-in"@, filter == ThemeFilter::Builtin)
        + filter_pill("S"@, "saved"@, filter == ThemeFilter::Saved)
}

/// What the loader shows when no theme matches the search.
pub open spec fn loader_empty_spec(query: Seq<char>) -> Seq<Seq<Shown>> {
    seq![
        seq![shown(" No themes match "@, Some(Paint::ChromeFg), None, true)],
        blank(),
        seq![muted(" \"/"@ + strip_leading(query, '/') + "\""@)],
    ]
}

/// The loader's footer.
pub open spec fn loader_footer_spec() -> Seq<Shown> {
    seq![
        key_cap(" ↑↓ "@),
        muted(" move  "@),
        key_cap(" Enter "@),
        muted(" load  "@),
        key_cap(" type "@),
        muted(" filter  "@),
        key_cap(" Esc "@),
        muted(" close"@),
    ]
}

/// The swatches a loader row shows: the theme's, or a neutral gray when
/// none are known.
pub open spec fn card_swatches(sw: Option<[RgbColor; 4]>) -> [RgbColor; 4] {
    match sw {
        Some(s) => s,
        None => [rgb(50, 50, 50), rgb(50, 50, 50), rgb(50, 50, 50), rgb(50, 50, 50)],
    }
}

/// A loader row `width` columns wide: a marker, the name (clipped and
/// padded to its column), and then three swatches and the kind (built-in B,
/// saved S) when highlighted, a green dot and the kind for the theme that was
/// being edited, or just the kind.
pub open spec fn card_spec(
    e: ThemeEntry,
    sw: Option<[RgbColor; 4]>,
    editing: bool,
    lit: bool,
    width: u16,
) -> Seq<Shown> {
    let bg = Some(if lit { Paint::CardBg } else { Paint::ChromeBg });
    let kind = if e is Builtin { "B"@ } else { "S"@ };
    let kind_fg = Some(if lit { Paint::CardDetail } else { Paint::CardDetailDim });
    let w = card_name_width(width, lit);
    let name = e.name_spec();
    let clipped = name.take(if w < name.len() { w } else { name.len() as int });
    let colors = card_swatches(sw);
    let head = seq![
        shown(if lit { "> "@ } else { "  "@ }, Some(if lit { Paint::CardMarker } else { Paint::CardMarkerDim }), bg, lit),
        shown(pad_right(clipped, w), Some(if lit { Paint::White } else { Paint::ListText }), bg, true),
        shown(" "@, None, bg, false),
    ];
    head + if lit {
        seq![
            shown("● "@, Some(Paint::Rgb(colors@[0])), bg, false),
            shown("● "@, Some(Paint::Rgb(colors@[1])), bg, false),
            shown("● "@, Some(Paint::Rgb(colors@[2])), bg, false),
            shown(kind, kind_fg, bg, true),
        ]
    } else if editing {
        seq![shown("● "@, Some(Paint::ActiveDot), bg, false), shown(kind, kind_fg, bg, false)]
    } else {
        seq![shown("  "@, None, bg, false), shown(kind, kind_fg, bg, false)]
    }
}

/// Whether `name` is the theme that was being edited when the loader opened.
pub open spec fn was_editing(a: App, name: Seq<char>) -> bool {
    a.original_theme matches Some(t) && t.name@ == name
}

impl App {
    /// The loader's title row across `width` columns.
    pub fn loader_header(&self, width: u16) -> (line: Vec<Piece>)
        ensures
            views(line@) == loader_header_spec(
                self.theme_search_query@,
                self.search_focused,
                self.loadable_themes@.len() as int,
                width,
            ),
    {
        let q = trim_leading_slashes(self.theme_search_query.as_str());
        let empty = q.as_str().is_empty();
        let mut label = String::from_str(" / ");
        if empty {
            label.append("(type to filter)");
        } else if self.search_focused {
            label.append(q.as_str());
            label.append("_");
            assert(label@ =~= " / "@ + (q@ + "_"@));
        } else {
            label.append(q.as_str());
        }
        let title = line_of(piece(" Themes ", Some(Paint::ChromeFg), None, true));
        let mut search = line_of(piece_of(label, Some(if empty { Paint::Dim } else { Paint::ChromeFg }), None, false));
        let mut count = line_of(
            muted_piece(count_label(self.loadable_themes.len(), 2, " matches").as_str()),
        );
        let ghost tv = views(title@);
        let ghost sv = views(search@);
        let ghost cv = views(count@);
        proof {
            let qs = strip_leading(self.theme_search_query@, '/');
            assert(tv =~= seq![shown(" Themes "@, Some(Paint::ChromeFg), None, true)]);
            assert(cv =~= seq![muted(pad_left(decimal_usize(self.loadable_themes@.len()), 2) + " matches"@)]);
            assert(sv =~= seq![
                shown(
                    " / "@ + if qs.len() == 0 {
                        "(type to filter)"@
                    } else if self.search_focused {
                        qs + "_"@
                    } else {
                        qs
                    },
                    Some(if qs.len() == 0 { Paint::Dim } else { Paint::ChromeFg }),
                    None,
                    false,
                ),
            ]);
        }
        let used = line_width(&title).saturating_add(line_width(&search)).saturating_add(line_width(&count));
        let gap = (width as usize).saturating_sub(used);
        let mut line = title;
        push_piece(&mut line, piece_of(space_string(gap), None, Some(Paint::ChromeBg), false));
        let ghost v1 = views(line@);
        line.append(&mut search);
        assert(views(line@) =~= v1 + sv);
        push_piece(&mut line, piece("  ", None, Some(Paint::ChromeBg), false));
        let ghost v2 = views(line@);
        line.append(&mut count);
        assert(views(line@) =~= v2 + cv);
        assert(views(line@) =~= loader_header_spec(
            self.theme_search_query@,
            self.search_focused,
            self.loadable_themes@.len() as int,
            width,
        ));
        line
    }

    /// The loader's filter row.
    pub fn filter_row(&self) -> (line: Vec<Piece>)
        ensures
            views(line@) == filter_row_spec(self.theme_filter),
    {
        let mut line = pill("A", "all", self.theme_filter == ThemeFilter::All);
        let mut d = pill("D", "built-in", self.theme_filter == ThemeFilter::Builtin);
        let mut s = pill("S", "saved", self.theme_filter == ThemeFilter::Saved);
        line.append(&mut d);
        line.append(&mut s);
        assert(views(line@) =~= filter_row_spec(self.theme_filter));
        line
    }

    /// What the loader shows when no theme matches.
    pub fn loader_empty_lines(&self) -> (lines: Vec<Vec<Piece>>)
        ensures
            lines_view(lines@) == loader_empty_spec(self.theme_search_query@),
    {
        let q = trim_leading_slashes(self.theme_search_query.as_str());
        let mut quoted = String::from_str(" \"/");
        quoted.append(q.as_str());
        quoted.append("\"");
        let mut lines: Vec<Vec<Piece>> = Vec::new();
        push_line(&mut lines, line_of(piece(" No themes match ", Some(Paint::ChromeFg), None, true)));
        push_line(&mut lines, blank_line());
        push_line(&mut lines, line_of(piece_of(quoted, Some(Paint::ChromeMuted), None, false)));
        assert(lines_view(lines@) =~= loader_empty_spec(self.theme_search_query@));
        lines
    }

    /// The row of the `index`-th listed theme, `width` columns wide.
    pub fn theme_card(&self, index: usize, lit: bool, width: u16) -> (line: Vec<Piece>)
        requires
            index < self.loadable_themes@.len(),
        ensures
            ({
                let e = self.loadable_themes@[index as int];
                views(line@) == card_spec(
                    e,
                    crate::ui::state::swatches_named(self.theme_swatches@, e.name_spec()),
                    was_editing(*self, e.name_spec()),
                    lit,
                    width,
                )
            }),
    {
        let entry = &self.loadable_themes[index];
        let colors = match self.swatches_for(entry.name()) {
            Some(sw) => sw,
            None => [RgbColor::new(50, 50, 50), RgbColor::new(50, 50, 50), RgbColor::new(50, 50, 50), RgbColor::new(50, 50, 50)],
        };
        let editing = match &self.original_theme {
            Some(t) => crate::text::str_equal(t.name.as_str(), entry.name()),
            None => false,
        };
        let bg = Some(if lit {
            Paint::CardBg
        } else {
            Paint::ChromeBg
        });
        let kind = if entry.is_builtin() {
            "B"
        } else {
            "S"
        };
        let kind_fg = Some(if lit {
            Paint::CardDetail
        } else {
            Paint::CardDetailDim
        });
        let w = theme_card_name_width(width, lit);
        let clipped = clip_text(entry.name(), w);
        let mut line: Vec<Piece> = Vec::new();
        push_piece(
            &mut line,
            piece(if lit { "> " } else { "  " }, Some(if lit { Paint::CardMarker } else { Paint::CardMarkerDim }), bg, lit),
        );
        push_piece(
            &mut line,
            piece_of(pad_string(clipped.as_str(), w), Some(if lit { Paint::White } else { Paint::ListText }), bg, true),
        );
        push_piece(&mut line, piece(" ", None, bg, false));
        if lit {
            push_piece(&mut line, piece("● ", Some(Paint::Rgb(colors[0])), bg, false));
            push_piece(&mut line, piece("● ", Some(Paint::Rgb(colors[1])), bg, false));
            push_piece(&mut line, piece("● ", Some(Paint::Rgb(colors[2])), bg, false));
            push_piece(&mut line, piece(kind, kind_fg, bg, true));
        } else if editing {
            push_piece(&mut line, piece("● ", Some(Paint::ActiveDot), bg, false));
            push_piece(&mut line, piece(kind, kind_fg, bg, false));
        } else {
            push_piece(&mut line, piece("  ", None, bg, false));
            push_piece(&mut line, piece(kind, kind_fg, bg, false));
        }
        assert(views(line@) =~= card_spec(
            *entry,
            crate::ui::state::swatches_named(self.theme_swatches@, entry.name_spec()),
            was_editing(*self, entry.name_spec()),
            lit,
            width,
        ));
        line
    }
}

fn pill(key: &str, label: &str, on: bool) -> (line: Vec<Piece>)
    ensures
        views(line@) == filter_pill(key@, label@, on),
{
    let key_bg = if on {
        Paint::AccentBg
    } else {
        Paint::SubtleBg
    };
    let key_fg = if on {
        Paint::AccentFg
    } else {
        Paint::SubtleFg
    };
    let label_bg = if on {
        Paint::SubtleBg
    } else {
        Paint::ChromeBg
    };
    let label_fg = if on {
        Paint::SubtleFg
    } else {
        Paint::ChromeMuted
    };
    let mut k = String::from_str(" ");
    k.append(key);
    k.append(" ");
    let mut l = String::from_str(" ");
    l.append(label);
    l.append(" ");
    let mut line: Vec<Piece> = Vec::new();
    push_piece(&mut line, piece("", Some(key_bg), Some(Paint::ChromeBg), false));
    push_piece(&mut line, piece_of(k, Some(key_fg), Some(key_bg), true));
    push_piece(&mut line, piece("", Some(label_bg), Some(key_bg), false));
    push_piece(&mut line, piece_of(l, Some(label_fg), Some(label_bg), false));
    push_piece(&mut line, piece("", Some(label_bg), Some(Paint::ChromeBg), false));
    push_piece(&mut line, piece(" ", None, None, false));
    assert(views(line@) =~= filter_pill(key@, label@, on));
    line
}

/// The loader's footer.
pub fn loader_footer() -> (line: Vec<Piece>)
    ensures
        views(line@) == loader_footer_spec(),
{
    let mut line: Vec<Piece> = Vec::new();
    push_piece(&mut line, key_piece(" ↑↓ "));
    push_piece(&mut line, muted_piece(" move  "));
    push_piece(&mut line, key_piece(" Enter "));
    push_piece(&mut line, muted_piece(" load  "));
    push_piece(&mut line, key_piece(" type "));
    push_piece(&mut line, muted_piece(" filter  "));
    push_piece(&mut line, key_piece(" Esc "));
    push_piece(&mut line, muted_piece(" close"));
    assert(views(line@) =~= loader_footer_spec());
    line
}

// ── Color picker ─────────────────────────────────────────────────────────────

/// The picker's key hints.
pub open spec fn picker_hints_spec() -> Seq<Seq<Shown>> {
    seq![
        seq![muted(" Tab focus · ←→↑↓ nudge (Shift coarse, Alt fine) · m mode"@)],
        seq![muted(" # hex · Enter edit hex / keep · Esc cancel"@)],
    ]
}

/// The picker's mode switch: RGB and HSL, the current one lit.
pub open spec fn mode_pills_spec(mode: PickerMode) -> Seq<Shown> {
    let pill = |label: Seq<char>, on: bool| if on {
        key_cap(label)
    } else {
        shown(label, Some(Paint::SubtleFg), Some(Paint::SubtleBg), false)
    };
    seq![pill(" RGB "@, mode == PickerMode::Rgb), shown(" "@, None, None, false), pill(" HSL "@, mode == PickerMode::Hsl)]
}

/// The picker's hex field: a marker when focused, then the hex line being
/// typed (with a cursor) or the color's hex.
pub open spec fn hex_field_spec(focus: Control, typing: Option<Seq<char>>, c: RgbColor) -> Seq<Shown> {
    seq![
        shown(if focus == Control::Hex { " ▸ "@ } else { "   "@ }, Some(Paint::AccentFg), None, false),
        muted("HEX  "@),
        match typing {
            Some(line) => shown(line + "_"@, Some(Paint::AccentFg), None, true),
            None => shown(hex_string(c), Some(Paint::ChromeFg), None, true),
        },
    ]
}

/// The picker's key hints.
pub fn picker_hints() -> (lines: Vec<Vec<Piece>>)
    ensures
        lines_view(lines@) == picker_hints_spec(),
{
    let mut lines: Vec<Vec<Piece>> = Vec::new();
    push_line(&mut lines, line_of(muted_piece(" Tab focus · ←→↑↓ nudge (Shift coarse, Alt fine) · m mode")));
    push_line(&mut lines, line_of(muted_piece(" # hex · Enter edit hex / keep · Esc cancel")));
    assert(lines_view(lines@) =~= picker_hints_spec());
    lines
}

/// The picker's mode switch.
pub fn mode_pills(mode: PickerMode) -> (line: Vec<Piece>)
    ensures
        views(line@) == mode_pills_spec(mode),
{
    let rgb_on = mode == PickerMode::Rgb;
    let hsl_on = mode == PickerMode::Hsl;
    let mut line: Vec<Piece> = Vec::new();
    if rgb_on {
        push_piece(&mut line, key_piece(" RGB "));
    } else {
        push_piece(&mut line, piece(" RGB ", Some(Paint::SubtleFg), Some(Paint::SubtleBg), false));
    }
    push_piece(&mut line, piece(" ", None, None, false));
    if hsl_on {
        push_piece(&mut line, key_piece(" HSL "));
    } else {
        push_piece(&mut line, piece(" HSL ", Some(Paint::SubtleFg), Some(Paint::SubtleBg), false));
    }
    assert(views(line@) =~= mode_pills_spec(mode));
    line
}

/// The picker's hex field for `picker`, showing `color` when no hex line is
/// being typed.
pub fn hex_field(picker: &Picker, color: RgbColor) -> (line: Vec<Piece>)
    ensures
        views(line@) == hex_field_spec(picker.focus_spec(), picker.hex_spec(), color),
{
    let focused = picker.focus() == Control::Hex;
    let mut line: Vec<Piece> = Vec::new();
    push_piece(&mut line, piece(if focused { " ▸ " } else { "   " }, Some(Paint::AccentFg), None, false));
    push_piece(&mut line, muted_piece("HEX  "));
    match picker.hex_line() {
        Some(typed) => {
            let mut t = String::from_str(typed);
            t.append("_");
            push_piece(&mut line, piece_of(t, Some(Paint::AccentFg), None, true));
        },
        None => push_piece(&mut line, piece_of(color.to_hex(), Some(Paint::ChromeFg), None, true)),
    }
    assert(views(line@) =~= hex_field_spec(picker.focus_spec(), picker.hex_spec(), color));
    line
}

// ── Laws of the preview ──────────────────────────────────────────────────────

/// The launcher mock is painted in the launcher's own colors: every piece of
/// its unselected rows in the launcher foreground on the launcher background,
/// the selected row in the selected colors, and two palettes with the same
/// four launcher colors give the same mock, whatever the desktop colors.
pub proof fn lemma_launcher_mock_colors(p: ThemePalette, q: ThemePalette)
    ensures
        launcher_lines_spec(p).len() == 4,
        forall|r: int, k: int|
            0 <= r < 4 && r != 1 && 0 <= k < launcher_lines_spec(p)[r].len() ==> {
                &&& (#[trigger] launcher_lines_spec(p)[r][k]).fg == Some(Paint::Rgb(p.launcher_foreground))
                &&& launcher_lines_spec(p)[r][k].bg == Some(Paint::Rgb(p.launcher_background))
            },
        forall|k: int|
            0 <= k < launcher_lines_spec(p)[1].len() ==> {
                &&& (#[trigger] launcher_lines_spec(p)[1][k]).fg == Some(Paint::Rgb(p.launcher_selected_foreground))
                &&& launcher_lines_spec(p)[1][k].bg == Some(Paint::Rgb(p.launcher_selected_background))
            },
        q.launcher_foreground == p.launcher_foreground && q.launcher_background == p.launcher_background
            && q.launcher_selected_foreground == p.launcher_selected_foreground
            && q.launcher_selected_background == p.launcher_selected_background ==> launcher_lines_spec(q)
            == launcher_lines_spec(p),
{
    let l = launcher_lines_spec(p);
    assert forall|r: int, k: int|
        0 <= r < 4 && r != 1 && 0 <= k < launcher_lines_spec(p)[r].len() implies {
            &&& (#[trigger] launcher_lines_spec(p)[r][k]).fg == Some(Paint::Rgb(p.launcher_foreground))
            &&& launcher_lines_spec(p)[r][k].bg == Some(Paint::Rgb(p.launcher_background))
        } by {
        assert(l[r].len() == 1);
        assert(k == 0);
    }
}

/// The terminal mock is painted in the terminal's own colors: every piece
/// on the terminal background, the prompts in the accent and all the rest
/// in the terminal foreground; the desktop colors do not reach it.
pub proof fn lemma_terminal_mock_colors(p: ThemePalette, q: ThemePalette)
    ensures
        terminal_lines_spec(p).len() == 3,
        forall|r: int, k: int|
            0 <= r < 3 && 0 <= k < terminal_lines_spec(p)[r].len() ==> {
                &&& (#[trigger] terminal_lines_spec(p)[r][k]).bg == Some(Paint::Rgb(p.terminal_background))
                &&& terminal_lines_spec(p)[r][k].fg == if r != 1 && k == 0 {
                    Some(Paint::Rgb(p.accent))
                } else {
                    Some(Paint::Rgb(p.terminal_foreground))
                }
            },
        q.terminal_foreground == p.terminal_foreground && q.terminal_background == p.terminal_background
            && q.accent == p.accent ==> terminal_lines_spec(q) == terminal_lines_spec(p),
{
    let l = terminal_lines_spec(p);
    assert forall|r: int, k: int|
        0 <= r < 3 && 0 <= k < terminal_lines_spec(p)[r].len() implies {
            &&& (#[trigger] terminal_lines_spec(p)[r][k]).bg == Some(Paint::Rgb(p.terminal_background))
            &&& terminal_lines_spec(p)[r][k].fg == if r != 1 && k == 0 {
                Some(Paint::Rgb(p.accent))
            } else {
                Some(Paint::Rgb(p.terminal_foreground))
            }
        } by {
        if r == 1 {
            assert(l[r].len() == 1);
        } else {
            assert(l[r].len() == 2);
        }
    }
}

/// The notification mock is painted in the desktop foreground on the
/// notification background, whatever the rest of the palette.
pub proof fn lemma_notification_mock_colors(p: ThemePalette, q: ThemePalette)
    ensures
        notification_lines_spec(p).len() == 2,
        forall|r: int, k: int|
            0 <= r < 2 && 0 <= k < notification_lines_spec(p)[r].len() ==> {
                &&& (#[trigger] notification_lines_spec(p)[r][k]).fg == Some(Paint::Rgb(p.foreground))
                &&& notification_lines_spec(p)[r][k].bg == Some(Paint::Rgb(p.notification_background))
            },
        q.foreground == p.foreground && q.notification_background == p.notification_background
            ==> notification_lines_spec(q) == notification_lines_spec(p),
{
    let l = notification_lines_spec(p);
    assert forall|r: int, k: int|
        0 <= r < 2 && 0 <= k < notification_lines_spec(p)[r].len() implies {
            &&& (#[trigger] notification_lines_spec(p)[r][k]).fg == Some(Paint::Rgb(p.foreground))
            &&& notification_lines_spec(p)[r][k].bg == Some(Paint::Rgb(p.notification_background))
        } by {
        assert(l[r].len() == 1);
    }
}

/// The window mocks are painted on the desktop background, in the desktop
/// foreground for the active window and in that foreground darkened by 40
/// per channel for the inactive one; nothing else of the palette reaches
/// them.
pub proof fn lemma_window_mock_colors(p: ThemePalette, q: ThemePalette, active: bool)
    ensures
        window_lines_spec(p, active).len() == 2,
        forall|r: int, k: int|
            0 <= r < 2 && 0 <= k < window_lines_spec(p, active)[r].len() ==> {
                &&& (#[trigger] window_lines_spec(p, active)[r][k]).bg == Some(Paint::Rgb(p.background))
                &&& window_lines_spec(p, active)[r][k].fg == Some(
                    Paint::Rgb(
                        if active {
                            p.foreground
                        } else {
                            rgb(
                                shade_channel(p.foreground.r, -40i16),
                                shade_channel(p.foreground.g, -40i16),
                                shade_channel(p.foreground.b, -40i16),
                            )
                        },
                    ),
                )
            },
        q.foreground == p.foreground && q.background == p.background ==> window_lines_spec(q, active)
            == window_lines_spec(p, active),
{
    let l = window_lines_spec(p, active);
    assert forall|r: int, k: int|
        0 <= r < 2 && 0 <= k < window_lines_spec(p, active)[r].len() implies {
            &&& (#[trigger] window_lines_spec(p, active)[r][k]).bg == Some(Paint::Rgb(p.background))
            &&& window_lines_spec(p, active)[r][k].fg == Some(
                Paint::Rgb(
                    if active {
                        p.foreground
                    } else {
                        rgb(
                            shade_channel(p.foreground.r, -40i16),
                            shade_channel(p.foreground.g, -40i16),
                            shade_channel(p.foreground.b, -40i16),
                        )
                    },
                ),
            )
        } by {
        assert(l[r].len() == 1);
    }
}

/// The mock bar is painted in the bar's own colors: every piece but the
/// active workspace lies on the bar's background, the active workspace is
/// drawn in the bar's background on the active-workspace color, the other
/// workspaces and the clock are in the bar's foreground; nothing else of
/// the palette reaches it.
pub proof fn lemma_waybar_mock_colors(p: ThemePalette, q: ThemePalette, lit: bool, width: u16)
    ensures
        waybar_spec(p, lit, width).len() == 6,
        forall|k: int|
            0 <= k < 6 && k != 1 ==> (#[trigger] waybar_spec(p, lit, width)[k]).bg == Some(
                Paint::Rgb(p.waybar_background),
            ),
        waybar_spec(p, lit, width)[1].fg == Some(Paint::Rgb(p.waybar_background)),
        waybar_spec(p, lit, width)[1].bg == Some(Paint::Rgb(p.waybar_active_workspace)),
        waybar_spec(p, lit, width)[2].fg == Some(Paint::Rgb(p.waybar_foreground)),
        waybar_spec(p, lit, width)[3].fg == Some(Paint::Rgb(p.waybar_foreground)),
        waybar_spec(p, lit, width)[5].fg == Some(Paint::Rgb(p.waybar_foreground)),
        q.waybar_foreground == p.waybar_foreground && q.waybar_background == p.waybar_background
            && q.waybar_active_workspace == p.waybar_active_workspace ==> waybar_spec(q, lit, width)
            == waybar_spec(p, lit, width),
{
    assert(waybar_head(p, lit).len() == 4);
}

} // verus!
