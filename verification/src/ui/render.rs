//! The pure parts of drawing the preview: which region a field lights up,
//! the labels and titles shown, and where overlays are placed.
use vstd::prelude::*;
use crate::text::chars_of;
use crate::theme::PaletteField;
use crate::ui::state::{App, ThemeEntry};

verus! {

/// Which preview region a palette field belongs to (drives selection highlight).
#[derive(Debug, Clone, Copy, PartialEq, Eq, Structural)]
pub enum Region {
    Desktop,
    ActiveWindow,
    InactiveWindow,
    Waybar,
    Launcher,
    Terminal,
    Notification,
}

pub open spec fn region_spec(f: PaletteField) -> Region {
    match f {
        PaletteField::Background => Region::Desktop,
        PaletteField::Foreground => Region::Desktop,
        PaletteField::Accent => Region::Desktop,
        PaletteField::Accent2 => Region::Desktop,
        PaletteField::ActiveBorder => Region::ActiveWindow,
        PaletteField::InactiveBorder => Region::InactiveWindow,
        PaletteField::WaybarBackground => Region::Waybar,
        PaletteField::WaybarForeground => Region::Waybar,
        PaletteField::WaybarActiveWorkspace => Region::Waybar,
        PaletteField::LauncherBackground => Region::Launcher,
        PaletteField::LauncherForeground => Region::Launcher,
        PaletteField::LauncherSelectedBackground => Region::Launcher,
        PaletteField::LauncherSelectedForeground => Region::Launcher,
        PaletteField::TerminalBackground => Region::Terminal,
        PaletteField::TerminalForeground => Region::Terminal,
        PaletteField::NotificationBackground => Region::Notification,
        PaletteField::NotificationBorder => Region::Notification,
    }
}

/// The within-group ("leaf") label of a field; the group tab supplies the context.
pub open spec fn leaf_label_spec(f: PaletteField) -> Seq<char> {
    match f {
        PaletteField::Background => "Background"@,
        PaletteField::Foreground => "Foreground"@,
        PaletteField::Accent => "Accent"@,
        PaletteField::Accent2 => "Accent 2"@,
        PaletteField::ActiveBorder => "Active border"@,
        PaletteField::InactiveBorder => "Inactive border"@,
        PaletteField::WaybarBackground => "Background"@,
        PaletteField::WaybarForeground => "Foreground"@,
        PaletteField::WaybarActiveWorkspace => "Active workspace"@,
        PaletteField::LauncherBackground => "Background"@,
        PaletteField::LauncherForeground => "Foreground"@,
        PaletteField::LauncherSelectedBackground => "Selected bg"@,
        PaletteField::LauncherSelectedForeground => "Selected fg"@,
        PaletteField::TerminalBackground => "Background"@,
        PaletteField::TerminalForeground => "Foreground"@,
        PaletteField::NotificationBackground => "Background"@,
        PaletteField::NotificationBorder => "Border"@,
    }
}

/// Within-group ("leaf") label — the group tab supplies the context.
pub fn field_leaf_label(f: PaletteField) -> (s: &'static str)
    ensures
        s@ == leaf_label_spec(f),
{
    match f {
        PaletteField::Background => "Background",
        PaletteField::Foreground => "Foreground",
        PaletteField::Accent => "Accent",
        PaletteField::Accent2 => "Accent 2",
        PaletteField::ActiveBorder => "Active border",
        PaletteField::InactiveBorder => "Inactive border",
        PaletteField::WaybarBackground => "Background",
        PaletteField::WaybarForeground => "Foreground",
        PaletteField::WaybarActiveWorkspace => "Active workspace",
        PaletteField::LauncherBackground => "Background",
        PaletteField::LauncherForeground => "Foreground",
        PaletteField::LauncherSelectedBackground => "Selected bg",
        PaletteField::LauncherSelectedForeground => "Selected fg",
        PaletteField::TerminalBackground => "Background",
        PaletteField::TerminalForeground => "Foreground",
        PaletteField::NotificationBackground => "Background",
        PaletteField::NotificationBorder => "Border",
    }
}

/// Which preview region a palette field belongs to.
pub fn region_of(field: PaletteField) -> (r: Region)
    ensures
        r == region_spec(field),
{
    match field {
        PaletteField::Background | PaletteField::Foreground | PaletteField::Accent | PaletteField::Accent2 => Region::Desktop,
        PaletteField::ActiveBorder => Region::ActiveWindow,
        PaletteField::InactiveBorder => Region::InactiveWindow,
        PaletteField::WaybarBackground | PaletteField::WaybarForeground | PaletteField::WaybarActiveWorkspace => Region::Waybar,
        PaletteField::LauncherBackground | PaletteField::LauncherForeground | PaletteField::LauncherSelectedBackground | PaletteField::LauncherSelectedForeground => Region::Launcher,
        PaletteField::TerminalBackground | PaletteField::TerminalForeground => Region::Terminal,
        PaletteField::NotificationBackground | PaletteField::NotificationBorder => Region::Notification,
    }
}

/// The title of a preview region's panel.
pub open spec fn region_label_spec(r: Region) -> Seq<char> {
    match r {
        Region::Desktop => "Desktop"@,
        Region::ActiveWindow => "Active window — Hyprland"@,
        Region::InactiveWindow => "Inactive window"@,
        Region::Waybar => "Waybar"@,
        Region::Launcher => "Launcher"@,
        Region::Terminal => "Terminal"@,
        Region::Notification => "Notification"@,
    }
}

/// The title of a preview region's panel.
pub fn region_label(r: Region) -> (s: &'static str)
    ensures
        s@ == region_label_spec(r),
{
    match r {
        Region::Desktop => "Desktop",
        Region::ActiveWindow => "Active window — Hyprland",
        Region::InactiveWindow => "Inactive window",
        Region::Waybar => "Waybar",
        Region::Launcher => "Launcher",
        Region::Terminal => "Terminal",
        Region::Notification => "Notification",
    }
}

/// At most the first `max_chars` characters of `text`.
pub fn clip_text(text: &str, max_chars: usize) -> (s: String)
    ensures
        s@ == text@.take(if max_chars < text@.len() { max_chars as int } else { text@.len() as int }),
{
    let cs = chars_of(text);
    let n = if max_chars < cs.len() {
        max_chars
    } else {
        cs.len()
    };
    let mut out = String::new();
    let mut i: usize = 0;
    while i < n
        invariant
            cs@ == text@,
            n <= cs.len(),
            i <= n,
            out@ == text@.take(i as int),
        decreases n - i,
    {
        out.push(cs[i]);
        assert(text@.take(i + 1) =~= text@.take(i as int).push(text@[i as int]));
        i = i + 1;
    }
    out
}

/// A screen rectangle. A rectangle that ratatui builds never runs past the
/// last column or row: `x + width` and `y + height` stay within `u16`.
#[derive(Debug, Clone, Copy, PartialEq, Eq, Structural)]
pub struct Rect {
    pub x: u16,
    pub y: u16,
    pub width: u16,
    pub height: u16,
}

pub open spec fn min_u16(a: u16, b: u16) -> u16 {
    if a < b {
        a
    } else {
        b
    }
}

/// What `ratatui::layout::Rect::new` builds: the given corner, with width and
/// height cut so the rectangle ends by `u16::MAX`.
pub open spec fn ratatui_rect(x: u16, y: u16, width: u16, height: u16) -> Rect {
    Rect {
        x,
        y,
        width: min_u16(width, (u16::MAX - x) as u16),
        height: min_u16(height, (u16::MAX - y) as u16),
    }
}

/// `ratatui::layout::Rect::new`, which computes the width as
/// `x.saturating_add(width) - x` and the height likewise.
#[verifier::external_body]
fn new_rect(x: u16, y: u16, width: u16, height: u16) -> (r: Rect)
    ensures
        r == ratatui_rect(x, y, width, height),
{
    let r = ratatui::layout::Rect::new(x, y, width, height);
    Rect { x: r.x, y: r.y, width: r.width, height: r.height }
}

/// A popup's size within `area`: at most `want`, leaving a cell on each side,
/// and at least one cell.
pub open spec fn popup_extent(want: u16, available: u16) -> u16 {
    let room = if available >= 2 {
        (available - 2) as u16
    } else {
        0u16
    };
    let m = min_u16(want, room);
    if m < 1 {
        1
    } else {
        m
    }
}

/// The popup of the requested size (shrunk to fit) centered in `area`.
pub open spec fn centered_rect_spec(area: Rect, width: u16, height: u16) -> Rect {
    let w = popup_extent(width, area.width);
    let h = popup_extent(height, area.height);
    let dx = if area.width >= w {
        (area.width - w) / 2
    } else {
        0
    };
    let dy = if area.height >= h {
        (area.height - h) / 2
    } else {
        0
    };
    ratatui_rect((area.x + dx) as u16, (area.y + dy) as u16, w, h)
}

/// A popup of the requested size (shrunk to fit, at least one cell), centered
/// in `area`.
pub fn centered_rect(area: Rect, width: u16, height: u16) -> (r: Rect)
    requires
        area.x + area.width <= u16::MAX,
        area.y + area.height <= u16::MAX,
    ensures
        r == centered_rect_spec(area, width, height),
{
    let popup_width = max1(min16(width, area.width.saturating_sub(2)));
    let popup_height = max1(min16(height, area.height.saturating_sub(2)));
    let x = area.x + area.width.saturating_sub(popup_width) / 2;
    let y = area.y + area.height.saturating_sub(popup_height) / 2;
    new_rect(x, y, popup_width, popup_height)
}

fn min16(a: u16, b: u16) -> (r: u16)
    ensures
        r == min_u16(a, b),
{
    if a < b {
        a
    } else {
        b
    }
}

fn max1(a: u16) -> (r: u16)
    ensures
        r == (if a < 1 {
            1
        } else {
            a
        }),
{
    if a < 1 {
        1
    } else {
        a
    }
}

// ── Overlay geometry ─────────────────────────────────────────────────────────

pub open spec fn clamp_u16(v: u16, lo: u16, hi: u16) -> u16 {
    if v < lo {
        lo
    } else if v > hi {
        hi
    } else {
        v
    }
}

/// The theme loader's width: room for the longest name plus 18 columns,
/// between 64 and 78, and at most the screen width less 4.
pub fn loader_overlay_width(longest_name: u16, screen_width: u16) -> (w: u16)
    ensures
        w == min_u16(
            clamp_u16(
                if longest_name as int + 18 > u16::MAX {
                    u16::MAX
                } else {
                    (longest_name + 18) as u16
                },
                64,
                78,
            ),
            if screen_width >= 4 {
                (screen_width - 4) as u16
            } else {
                0u16
            },
        ),
{
    let desired = longest_name.saturating_add(18);
    let clamped = if desired < 64 {
        64
    } else if desired > 78 {
        78
    } else {
        desired
    };
    min16(clamped, screen_width.saturating_sub(4))
}

/// The first loader row shown: the list starts at the top while it fits or
/// while the highlight is in the first half-page; otherwise the highlight sits
/// mid-page, without scrolling past the end.
pub fn loader_scroll(len: usize, selected: usize, cards_per_view: usize) -> (first: usize)
    ensures
        first == (if len <= cards_per_view || selected < cards_per_view / 2 {
            0
        } else {
            let a = selected - cards_per_view / 2;
            let b = len - cards_per_view;
            if a < b {
                a
            } else {
                b
            }
        }),
        first <= len,
{
    if len <= cards_per_view {
        0
    } else if selected < cards_per_view / 2 {
        0
    } else {
        let a = selected - cards_per_view / 2;
        let b = len - cards_per_view;
        if a < b {
            a
        } else {
            b
        }
    }
}

/// The field finder's height: up to 12 listed matches (at least one row)
/// plus the query row and the border.
pub fn field_search_height(matches: usize) -> (h: u16)
    ensures
        h == (if matches < 1 {
            1
        } else if matches > 12 {
            12
        } else {
            matches
        }) + 3,
{
    let shown = if matches < 1 {
        1
    } else if matches > 12 {
        12
    } else {
        matches
    };
    (shown + 3) as u16
}

/// The finder's highlighted row (kept inside the matches) and the first row
/// shown, so that the highlight is visible in `rows` rows.
pub fn field_search_window(matches: usize, index: usize, rows: usize) -> (r: (usize, usize))
    requires
        matches > 0,
    ensures
        r.0 == (if index < matches - 1 {
            index
        } else {
            (matches - 1) as usize
        }),
        r.1 == (if r.0 >= rows {
            r.0 + 1 - rows
        } else {
            0
        }),
        rows > 0 ==> r.1 <= r.0,
        rows > 0 ==> r.0 < r.1 + rows,
{
    let sel = if index < matches - 1 {
        index
    } else {
        matches - 1
    };
    let scroll = if sel >= rows {
        sel + 1 - rows
    } else {
        0
    };
    (sel, scroll)
}

/// The help panel's size on a `width` by `height` screen: 84 by 24, or less
/// to leave a margin.
pub fn help_overlay_size(width: u16, height: u16) -> (r: (u16, u16))
    ensures
        r.0 == min_u16(84, if width >= 4 { (width - 4) as u16 } else { 0 }),
        r.1 == min_u16(24, if height >= 2 { (height - 2) as u16 } else { 0 }),
{
    (min16(84, width.saturating_sub(4)), min16(24, height.saturating_sub(2)))
}

/// The loader's height on a screen `height` rows tall: 20, or less to leave
/// a margin.
pub fn loader_overlay_height(height: u16) -> (h: u16)
    ensures
        h == min_u16(20, if height >= 2 { (height - 2) as u16 } else { 0 }),
{
    min16(20, height.saturating_sub(2))
}

/// The most characters in the name of any of `entries`, or 24 when there
/// are none.
pub open spec fn longest_name_spec(entries: Seq<ThemeEntry>) -> int
    decreases entries.len(),
{
    if entries.len() == 0 {
        24
    } else if entries.len() == 1 {
        entries[0].name_spec().len() as int
    } else {
        let rest = longest_name_spec(entries.drop_last());
        let last = entries.last().name_spec().len() as int;
        if last > rest {
            last
        } else {
            rest
        }
    }
}

/// How far the help list can scroll: the rows that do not fit.
pub open spec fn help_max_scroll(rows: int, visible: int) -> int {
    if rows > visible {
        rows - visible
    } else {
        0
    }
}

/// The help list's scroll offset: as asked, but never past the last page.
pub fn help_scroll_offset(requested: u16, rows: usize, visible: usize) -> (offset: u16)
    requires
        rows <= u16::MAX,
    ensures
        offset == (if (requested as int) < help_max_scroll(rows as int, visible as int) {
            requested as int
        } else {
            help_max_scroll(rows as int, visible as int)
        }),
{
    let max_scroll: u16 = if rows > visible {
        (rows - visible) as u16
    } else {
        0
    };
    if requested < max_scroll {
        requested
    } else {
        max_scroll
    }
}

/// The width of a loader row's name column.
pub open spec fn card_name_width(row_width: u16, selected: bool) -> int {
    let reserved = 2 + if selected {
        12int
    } else {
        4int
    } + 1;
    let room = if row_width >= reserved {
        row_width - reserved
    } else {
        0
    };
    if room < 12 {
        12
    } else {
        room
    }
}

/// Columns left for a theme's name on its loader row: the row less the
/// marker and the detail (12 columns when highlighted, else 4) and a gap, but
/// at least 12.
pub fn theme_card_name_width(row_width: u16, selected: bool) -> (w: usize)
    ensures
        w == card_name_width(row_width, selected),
{
    let detail: usize = if selected {
        12
    } else {
        4
    };
    let reserved = 2 + detail;
    let room = (row_width as usize).saturating_sub(reserved + 1);
    if room < 12 {
        12
    } else {
        room
    }
}

impl App {
    /// The length, in characters, of the longest name the loader lists (24
    /// when it lists none), cut to 16 bits as the loader's width takes it.
    pub fn longest_loader_name(&self) -> (n: u16)
        ensures
            n == longest_name_spec(self.loadable_themes@) % 65536,
    {
        let es = &self.loadable_themes;
        if es.len() == 0 {
            return 24;
        }
        let mut best: usize = es[0].name().unicode_len();
        let mut i: usize = 1;
        proof {
            assert(es@.take(1).drop_last() =~= Seq::<ThemeEntry>::empty());
            assert(longest_name_spec(es@.take(1)) == es@[0].name_spec().len());
        }
        while i < es.len()
            invariant
                1 <= i <= es.len(),
                best == longest_name_spec(es@.take(i as int)),
            decreases es.len() - i,
        {
            let n = es[i].name().unicode_len();
            proof {
                assert(es@.take(i + 1).drop_last() =~= es@.take(i as int));
                assert(es@.take(i + 1).last() == es@[i as int]);
            }
            if n > best {
                best = n;
            }
            i = i + 1;
        }
        proof {
            assert(es@.take(es.len() as int) =~= es@);
        }
        let r = best as u16;
        assert(r == best % 65536) by (bit_vector)
            requires
                r == best as u16,
        ;
        r
    }

    /// Whether the selected field lights up `region`.
    pub fn sel(&self, region: Region) -> (b: bool)
        ensures
            b == (region_spec(self.selected) == region),
    {
        region_of(self.selected) == region
    }

    /// A region's title, marked with arrows while it is selected.
    pub fn title(&self, region: Region, text: &str) -> (s: String)
        ensures
            s@ == (if region_spec(self.selected) == region {
                " ▶ "@ + text@ + " ◀ "@
            } else {
                " "@ + text@ + " "@
            }),
    {
        if self.sel(region) {
            let mut s = String::from_str(" ▶ ");
            s.append(text);
            s.append(" ◀ ");
            s
        } else {
            let mut s = String::from_str(" ");
            s.append(text);
            s.append(" ");
            s
        }
    }
}

} // verus!
