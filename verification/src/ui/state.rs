//! The editor state machine: field selection, the fuzzy field finder, color
//! editing with yank/paste/undo, the theme loader, save/apply, and self-update.
//!
//! Disk and process work happens outside: a method that needs it either takes
//! its outcome as an argument (what was read from disk, what an export or an
//! apply reported) or returns what is to be done, with a companion method that
//! takes the outcome.
use vstd::prelude::*;
use crate::config::{error_text, ConfigError};
use crate::text::{
    chars_of, contains_str, contains_substring, is_ascii_alphanumeric, is_subsequence,
    is_subsequence_of, lowercase_seq, lowercase_string, is_ascii_alphanumeric_spec, is_ascii_whitespace,
    is_ascii_whitespace_spec, to_ascii_lowercase, to_ascii_lowercase_spec,
};
use crate::text::{
    decimal_usize, is_sorted_names, push_decimal_usize, sort_strings, str_equal, string_views,
};
use crate::theme::presets::{self, builtin_presets, preset_named};
use crate::theme::{all_fields, all_groups, hex_string, rgb, PaletteField, PaletteGroup, RgbColor, Theme, ThemePalette};

verus! {

/// A theme the loader offers: one saved on disk, or a built-in preset.
#[derive(Debug)]
pub enum ThemeEntry {
    User(String),
    Builtin(&'static str),
}

impl Clone for ThemeEntry {
    fn clone(&self) -> (e: Self)
        ensures
            e == *self,
    {
        match self {
            ThemeEntry::User(n) => ThemeEntry::User(n.clone()),
            ThemeEntry::Builtin(n) => ThemeEntry::Builtin(n),
        }
    }
}

impl ThemeEntry {
    pub open spec fn name_spec(&self) -> Seq<char> {
        match self {
            ThemeEntry::User(n) => n@,
            ThemeEntry::Builtin(n) => n@,
        }
    }

    pub fn name(&self) -> (n: &str)
        ensures
            n@ == self.name_spec(),
    {
        match self {
            ThemeEntry::User(n) => n.as_str(),
            ThemeEntry::Builtin(n) => n,
        }
    }

    pub fn is_builtin(&self) -> (b: bool)
        ensures
            b == (*self is Builtin),
    {
        match self {
            ThemeEntry::Builtin(_) => true,
            ThemeEntry::User(_) => false,
        }
    }
}

/// Which themes the loader lists.
#[derive(Debug, Clone, Copy, PartialEq, Eq, Structural)]
pub enum ThemeFilter {
    All,
    Builtin,
    Saved,
}

/// What the keyboard currently drives.
#[derive(Debug, Clone, Copy, PartialEq, Eq, Structural)]
pub enum InputMode {
    Preview,
    ColorPicker,
    ThemeNameInput,
    ThemeLoad,
    ThemeLoadRename,
    ThemeLoadDeleteConfirm,
    ApplyConfirm,
    UpdateRestartConfirm,
    FieldSearch,
    Help,
}

/// Where the self-update stands.
#[derive(Debug, PartialEq, Eq)]
pub enum UpdateStatus {
    Idle,
    Checking,
    UpToDate,
    Available(String),
    Downloading,
    Done,
    Failed(String),
}

/// What the update worker reports back.
#[derive(Debug)]
pub enum UpdateMsg {
    /// The newest release tag when it is newer than this build, `None` when
    /// this build is current.
    VersionChecked(Result<Option<String>, String>),
    UpdateComplete(Result<(), String>),
}

/// One poll of the update channel.
#[derive(Debug)]
pub enum UpdatePoll {
    Received(UpdateMsg),
    Empty,
    Disconnected,
}

/// A theme directory as read from disk: its name and what reading its
/// `palette.json` gave.
#[derive(Debug)]
pub struct SavedTheme {
    pub name: String,
    pub palette: Result<crate::theme::ThemePalette, ConfigError>,
}

impl Clone for SavedTheme {
    fn clone(&self) -> (t: Self)
        ensures
            t == *self,
    {
        let palette = match &self.palette {
            Ok(p) => Ok(*p),
            Err(e) => Err(e.clone()),
        };
        SavedTheme { name: self.name.clone(), palette }
    }
}

#[verifier::external_type_specification]
#[verifier::external_body]
#[verifier::reject_recursive_types(T)]
pub struct ExReceiver<T>(std::sync::mpsc::Receiver<T>);

pub struct App {
    pub theme: Theme,
    pub selected: PaletteField,
    pub apply_available: bool,
    pub message: Option<String>,
    pub input_mode: InputMode,
    /// Color of the selected field when the picker was opened (for cancel/undo).
    pub original_color: Option<RgbColor>,
    pub theme_name_input: String,
    pub all_themes: Vec<ThemeEntry>,
    pub loadable_themes: Vec<ThemeEntry>,
    pub theme_filter: ThemeFilter,
    pub selected_theme_index: usize,
    pub dirty: bool,
    pub original_theme: Option<Theme>,
    /// Swatch colors per loader entry, in the order of `all_themes`.
    pub theme_swatches: Vec<(String, [RgbColor; 4])>,
    /// The saved themes as last read from disk.
    pub saved_themes: Vec<SavedTheme>,
    pub theme_search_query: String,
    pub search_focused: bool,
    pub help_scroll: u16,
    pub clipboard_color: Option<RgbColor>,
    pub undo_stack: Vec<(PaletteField, RgbColor)>,
    pub loader_action_index: usize,
    // Fuzzy field palette ( / )
    pub field_search_query: String,
    pub field_search_index: usize,
    // Self-update
    pub update_status: UpdateStatus,
    pub update_rx: Option<std::sync::mpsc::Receiver<UpdateMsg>>,
    pub restart_after_exit: bool,
    /// Set after shelling out to an external command so the event loop forces a
    /// full terminal repaint (the child may have drawn over the alternate screen).
    pub force_redraw: bool,
}

/// Position of a field within its group's field list.
pub open spec fn slot_in_group(f: PaletteField) -> int {
    match f {
        PaletteField::Background => 0,
        PaletteField::Foreground => 1,
        PaletteField::Accent => 2,
        PaletteField::Accent2 => 3,
        PaletteField::ActiveBorder => 0,
        PaletteField::InactiveBorder => 1,
        PaletteField::WaybarBackground => 0,
        PaletteField::WaybarForeground => 1,
        PaletteField::WaybarActiveWorkspace => 2,
        PaletteField::LauncherBackground => 0,
        PaletteField::LauncherForeground => 1,
        PaletteField::LauncherSelectedBackground => 2,
        PaletteField::LauncherSelectedForeground => 3,
        PaletteField::TerminalBackground => 0,
        PaletteField::TerminalForeground => 1,
        PaletteField::NotificationBackground => 0,
        PaletteField::NotificationBorder => 1,
    }
}

/// The field after `f` within its group, wrapping to the group's first.
pub open spec fn next_in_group(f: PaletteField) -> PaletteField {
    let fs = f.group_spec().fields_spec();
    fs[(slot_in_group(f) + 1) % (fs.len() as int)]
}

/// The field before `f` within its group, wrapping to the group's last.
pub open spec fn prev_in_group(f: PaletteField) -> PaletteField {
    let fs = f.group_spec().fields_spec();
    if slot_in_group(f) == 0 {
        fs[fs.len() - 1]
    } else {
        fs[slot_in_group(f) - 1]
    }
}

/// The group after `g` in tab order, wrapping to the first.
pub open spec fn next_group_of(g: PaletteGroup) -> PaletteGroup {
    all_groups()[(g.position() + 1) % 6]
}

/// The group before `g` in tab order, wrapping to the last.
pub open spec fn prev_group_of(g: PaletteGroup) -> PaletteGroup {
    if g.position() == 0 {
        all_groups()[5]
    } else {
        all_groups()[g.position() - 1]
    }
}

pub open spec fn first_field(g: PaletteGroup) -> PaletteField {
    g.fields_spec()[0]
}

// ── Theme names ──────────────────────────────────────────────────────────────

/// How one character of a typed theme name appears in its directory name:
/// letters, digits, `-` and `_` are kept (lowercased), ASCII whitespace
/// becomes `-`, anything else is dropped.
pub open spec fn normalized_char(c: char) -> Option<char> {
    if is_ascii_alphanumeric_spec(c) || c == '-' || c == '_' {
        Some(to_ascii_lowercase_spec(c))
    } else if is_ascii_whitespace_spec(c) {
        Some('-')
    } else {
        None
    }
}

pub open spec fn normalized_chars(s: Seq<char>) -> Seq<char>
    decreases s.len(),
{
    if s.len() == 0 {
        Seq::empty()
    } else {
        let rest = normalized_chars(s.drop_last());
        match normalized_char(s.last()) {
            Some(c) => rest.push(c),
            None => rest,
        }
    }
}

/// `s` without its leading `c`s.
pub open spec fn strip_leading(s: Seq<char>, c: char) -> Seq<char>
    decreases s.len(),
{
    if s.len() > 0 && s[0] == c {
        strip_leading(s.drop_first(), c)
    } else {
        s
    }
}

/// `s` without its trailing `c`s.
pub open spec fn strip_trailing(s: Seq<char>, c: char) -> Seq<char>
    decreases s.len(),
{
    if s.len() > 0 && s.last() == c {
        strip_trailing(s.drop_last(), c)
    } else {
        s
    }
}

/// The directory name a typed theme name is saved under.
pub open spec fn normalized_name(s: Seq<char>) -> Seq<char> {
    strip_trailing(strip_leading(normalized_chars(s), '-'), '-')
}

fn normalize_char(c: char) -> (r: Option<char>)
    ensures
        r == normalized_char(c),
{
    if is_ascii_alphanumeric(c) || c == '-' || c == '_' {
        Some(to_ascii_lowercase(c))
    } else if is_ascii_whitespace(c) {
        Some('-')
    } else {
        None
    }
}

proof fn lemma_strip_leading_step(s: Seq<char>, c: char, i: int)
    requires
        0 <= i < s.len(),
        s[i] == c,
    ensures
        strip_leading(s.skip(i), c) == strip_leading(s.skip(i + 1), c),
{
    assert(s.skip(i).drop_first() =~= s.skip(i + 1));
}

proof fn lemma_strip_trailing_step(s: Seq<char>, c: char, j: int)
    requires
        0 < j <= s.len(),
        s[j - 1] == c,
    ensures
        strip_trailing(s.take(j), c) == strip_trailing(s.take(j - 1), c),
{
    assert(s.take(j).drop_last() =~= s.take(j - 1));
}

/// Turns a typed name into the directory-safe slug it is saved under:
/// lowercase letters, digits, `-` and `_`, whitespace runs turned into `-`,
/// with no `-` at either end.
pub fn normalize_theme_name(input: &str) -> (r: String)
    ensures
        r@ == normalized_name(input@),
{
    let cs = chars_of(input);
    let mut mapped: Vec<char> = Vec::new();
    let mut i: usize = 0;
    while i < cs.len()
        invariant
            cs@ == input@,
            i <= cs.len(),
            mapped@ == normalized_chars(input@.take(i as int)),
        decreases cs.len() - i,
    {
        proof {
            assert(input@.take(i + 1).drop_last() =~= input@.take(i as int));
        }
        match normalize_char(cs[i]) {
            Some(c) => mapped.push(c),
            None => {},
        }
        i = i + 1;
    }
    proof {
        assert(input@.take(cs.len() as int) =~= input@);
    }
    let ghost m = mapped@;
    let mut start: usize = 0;
    proof {
        assert(m.skip(0) =~= m);
    }
    while start < mapped.len() && mapped[start] == '-'
        invariant
            m == mapped@,
            start <= mapped.len(),
            strip_leading(m, '-') == strip_leading(m.skip(start as int), '-'),
        decreases mapped.len() - start,
    {
        proof {
            lemma_strip_leading_step(m, '-', start as int);
        }
        start = start + 1;
    }
    let ghost lead = m.skip(start as int);
    proof {
        if lead.len() > 0 {
            assert(lead[0] == m[start as int]);
        }
        assert(strip_leading(lead, '-') == lead);
        assert(lead.take(lead.len() as int) =~= lead);
    }
    let mut end: usize = mapped.len();
    while end > start && mapped[end - 1] == '-'
        invariant
            m == mapped@,
            lead == m.skip(start as int),
            start <= end <= mapped.len(),
            strip_trailing(lead, '-') == strip_trailing(lead.take(end - start), '-'),
        decreases end,
    {
        proof {
            assert(lead[end - start - 1] == m[end - 1]);
            lemma_strip_trailing_step(lead, '-', end - start);
        }
        end = end - 1;
    }
    let ghost kept = lead.take(end - start);
    proof {
        if kept.len() > 0 {
            assert(kept.last() == m[end - 1]);
        }
        assert(strip_trailing(kept, '-') == kept);
    }
    let mut out = String::new();
    let mut k: usize = start;
    while k < end
        invariant
            m == mapped@,
            start <= k <= end <= mapped.len(),
            out@ == m.subrange(start as int, k as int),
        decreases end - k,
    {
        out.push(mapped[k]);
        proof {
            assert(m.subrange(start as int, k + 1) =~= m.subrange(start as int, k as int).push(m[k as int]));
        }
        k = k + 1;
    }
    proof {
        assert(kept =~= m.subrange(start as int, end as int));
    }
    out
}

/// Whether the characters of `needle` occur in `haystack` in order.
fn fuzzy_match(haystack: &str, needle: &str) -> (r: bool)
    ensures
        r == is_subsequence(needle@, haystack@),
{
    is_subsequence_of(haystack, needle)
}

pub open spec fn min_usize(a: int, b: int) -> int {
    if a < b {
        a
    } else {
        b
    }
}

proof fn lemma_negative_euclid(s: int, m: int, k: int)
    requires
        m > 0,
        s < 0,
        k == (-s) % m,
    ensures
        s % m == (if k == 0 {
            0
        } else {
            m - k
        }),
{
    let a = -s;
    let q = a / m;
    vstd::arithmetic::div_mod::lemma_fundamental_div_mod(a, m);
    assert(a == m * q + k);
    if k == 0 {
        assert(s == (-q) * m + 0) by (nonlinear_arith)
            requires
                a == m * q + k,
                k == 0,
                s == -a,
        ;
        vstd::arithmetic::div_mod::lemma_fundamental_div_mod_converse(s, m, -q, 0);
    } else {
        assert(s == (-q - 1) * m + (m - k)) by (nonlinear_arith)
            requires
                a == m * q + k,
                s == -a,
        ;
        vstd::arithmetic::div_mod::lemma_fundamental_div_mod_converse(s, m, -q - 1, m - k);
    }
}

// ── Field finder ─────────────────────────────────────────────────────────────

/// The text a query is matched against for a field: "<group> <label>",
/// lowercased.
pub open spec fn field_haystack(f: PaletteField) -> Seq<char> {
    lowercase_seq(f.group_spec().label_spec() + seq![' '] + f.label_spec())
}

/// Whether a field is listed for a (lowercased) query: every field for the
/// empty query, else those whose haystack contains the query.
pub open spec fn field_matches(f: PaletteField, q: Seq<char>) -> bool {
    q.len() == 0 || contains_substring(field_haystack(f), q)
}

/// The fields the finder lists for a typed query, in field order.
pub open spec fn fields_matching(query: Seq<char>) -> Seq<PaletteField> {
    all_fields().filter(|f: PaletteField| field_matches(f, lowercase_seq(query)))
}

// ── Theme loader ─────────────────────────────────────────────────────────────

/// What reading the saved theme called `name` gave: the first saved theme of
/// that name, `None` when there is none.
pub open spec fn saved_lookup(saved: Seq<SavedTheme>, name: Seq<char>) -> Option<
    Result<ThemePalette, ConfigError>,
>
    decreases saved.len(),
{
    if saved.len() == 0 {
        None
    } else if saved[0].name@ == name {
        Some(saved[0].palette)
    } else {
        saved_lookup(saved.drop_first(), name)
    }
}

/// What loading a loader entry gives: a saved theme as read from disk, a
/// built-in preset by name; `None` when there is no such theme.
pub open spec fn entry_lookup(e: ThemeEntry, saved: Seq<SavedTheme>) -> Option<
    Result<ThemePalette, ConfigError>,
> {
    match e {
        ThemeEntry::User(n) => saved_lookup(saved, n@),
        ThemeEntry::Builtin(n) => match preset_named(n@) {
            Some(p) => Some(Ok(p)),
            None => None,
        },
    }
}

/// `r` is what loading `e` reports: the theme under the entry's name, the
/// read error, or "not found" under the entry's name.
pub open spec fn loads_as(r: Result<Theme, ConfigError>, e: ThemeEntry, saved: Seq<SavedTheme>) -> bool {
    match entry_lookup(e, saved) {
        Some(Ok(p)) => r matches Ok(t) && t.name@ == e.name_spec() && t.palette == p,
        Some(Err(err)) => r == Err::<Theme, ConfigError>(err),
        None => r matches Err(ConfigError::ThemeNotFound(m)) && m@ == e.name_spec(),
    }
}

/// Whether the loader lists `e` under a filter and a (lowercased) search.
pub open spec fn entry_visible(e: ThemeEntry, filter: ThemeFilter, q: Seq<char>) -> bool {
    let by_filter = match filter {
        ThemeFilter::All => true,
        ThemeFilter::Builtin => e is Builtin,
        ThemeFilter::Saved => !(e is Builtin),
    };
    by_filter && (q.len() == 0 || is_subsequence(q, lowercase_seq(e.name_spec())))
}

/// The search text as the loader applies it: leading `/`s dropped, lowercased.
pub open spec fn loader_query(query: Seq<char>) -> Seq<char> {
    lowercase_seq(strip_leading(query, '/'))
}

/// The loader's list for the given entries, filter and search.
pub open spec fn visible_entries(all: Seq<ThemeEntry>, filter: ThemeFilter, query: Seq<char>) -> Seq<
    ThemeEntry,
> {
    all.filter(|e: ThemeEntry| entry_visible(e, filter, loader_query(query)))
}

/// The highlight kept within a list of `len` entries.
pub open spec fn clamped_index(index: int, len: int) -> int {
    if index >= len {
        if len == 0 {
            0
        } else {
            len - 1
        }
    } else {
        index
    }
}

pub open spec fn entry_names(es: Seq<ThemeEntry>) -> Seq<Seq<char>> {
    es.map_values(|e: ThemeEntry| e.name_spec())
}

pub open spec fn saved_names(saved: Seq<SavedTheme>) -> Seq<Seq<char>> {
    saved.map_values(|t: SavedTheme| t.name@)
}

/// The loader's entries for the saved themes `users`: the saved themes by
/// name in sorted order, then the built-in presets in their own order.
pub open spec fn entries_listed(es: Seq<ThemeEntry>, users: Seq<SavedTheme>) -> bool {
    let k = users.len() as int;
    &&& es.len() == k + 4
    &&& forall|i: int| 0 <= i < k ==> #[trigger] es[i] is User
    &&& is_sorted_names(entry_names(es.take(k)))
    &&& entry_names(es.take(k)).to_multiset() == saved_names(users).to_multiset()
    &&& forall|j: int|
        0 <= j < 4 ==> (#[trigger] es[k + j]) is Builtin && es[k + j].name_spec()
            == builtin_presets()[j].0
}

/// The saved themes a disk listing gave (none when listing failed).
pub open spec fn listed_themes(listed: Result<Vec<SavedTheme>, ConfigError>) -> Seq<SavedTheme> {
    match listed {
        Ok(v) => v@,
        Err(_) => Seq::empty(),
    }
}

/// The swatch colors the loader shows for a palette.
pub open spec fn swatch_colors(p: ThemePalette) -> Seq<RgbColor> {
    seq![p.background, p.accent, p.accent2, p.active_border]
}

/// The swatches of an entry: its palette's, or grey when it cannot be loaded.
pub open spec fn entry_swatches(e: ThemeEntry, saved: Seq<SavedTheme>) -> Seq<RgbColor> {
    match entry_lookup(e, saved) {
        Some(Ok(p)) => swatch_colors(p),
        _ => seq![rgb(50, 50, 50), rgb(50, 50, 50), rgb(50, 50, 50), rgb(50, 50, 50)],
    }
}

/// The palette of loader entry `i`, when there is such an entry and it loads.
pub open spec fn loadable_palette(a: App, i: int) -> Option<ThemePalette> {
    if 0 <= i < a.loadable_themes@.len() {
        match entry_lookup(a.loadable_themes@[i], a.saved_themes@) {
            Some(Ok(p)) => Some(p),
            _ => None,
        }
    } else {
        None
    }
}

/// What asking to apply does: without an apply command it says so; a theme
/// without a usable name goes to the name prompt first; otherwise the apply
/// prompt opens, naming the theme.
pub open spec fn apply_begun(before: App, after: App) -> bool {
    let n = normalized_name(before.theme.name@);
    if !before.apply_available {
        &&& after.message matches Some(m) && m@ == "omarchy-theme-set not found — export only"@
        &&& after == (App { message: after.message, ..before })
    } else if n.len() == 0 {
        &&& after.theme_name_input@ == before.theme.name@
        &&& after.message matches Some(m) && m@ == "Enter a theme name, then press Enter to export"@
        &&& after == (App {
            theme_name_input: after.theme_name_input,
            input_mode: InputMode::ThemeNameInput,
            message: after.message,
            ..before
        })
    } else {
        &&& after.message matches Some(m) && m@ == "Apply \""@ + n
            + "\" to the live desktop with omarchy-theme-set? y = yes, n = no"@
        &&& after == (App { input_mode: InputMode::ApplyConfirm, message: after.message, ..before })
    }
}

/// The loader's highlight one entry up from `i` in a list of `len`,
/// wrapping from the first entry to the last; 0 in an empty list.
pub open spec fn index_up(len: int, i: int) -> int {
    if len == 0 {
        0
    } else if i == 0 {
        len - 1
    } else {
        i - 1
    }
}

/// The loader's highlight one entry down from `i` in a list of `len`,
/// wrapping from the last entry to the first; 0 in an empty list.
pub open spec fn index_down(len: int, i: int) -> int {
    if len == 0 {
        0
    } else {
        (i + 1) % len
    }
}

/// Moving the loader's highlight up, and previewing the entry it lands on.
pub open spec fn moved_up(before: App, after: App) -> bool {
    let j = index_up(before.loadable_themes@.len() as int, before.selected_theme_index as int);
    previewed(App { selected_theme_index: j as usize, ..before }, after, j)
}

/// Moving the loader's highlight down, and previewing the entry it lands on.
pub open spec fn moved_down(before: App, after: App) -> bool {
    let j = index_down(before.loadable_themes@.len() as int, before.selected_theme_index as int);
    previewed(App { selected_theme_index: j as usize, ..before }, after, j)
}

/// The finder's highlight after moving by `delta` from `i` among `len`
/// matches: from the highlight kept inside the matches, wrapping around;
/// 0 when nothing matches.
pub open spec fn finder_moved(len: int, i: int, delta: int) -> int {
    if len == 0 {
        0
    } else {
        (min_usize(i, len - 1) + delta) % len
    }
}

/// Closing the loader without loading: the theme that was being edited when
/// it opened comes back (the current one stays if none was remembered), and
/// the search is cleared.
pub open spec fn loader_cancelled(before: App, after: App) -> bool {
    let t = match before.original_theme {
        Some(o) => o,
        None => before.theme,
    };
    &&& after.theme == t
    &&& after.theme_name_input@ == t.name@
    &&& after.theme_search_query@.len() == 0
    &&& after == (App {
        theme: t,
        original_theme: None,
        theme_name_input: after.theme_name_input,
        theme_search_query: after.theme_search_query,
        search_focused: false,
        input_mode: InputMode::Preview,
        message: None,
        ..before
    })
}

/// Opening the loader remembers the theme being edited.
pub open spec fn loader_opened(before: App, after: App) -> bool {
    &&& after.original_theme == Some(before.theme)
    &&& after.input_mode == InputMode::ThemeLoad
}

/// One step of browsing the loader: moving the highlight, switching the
/// filter or changing the search (each previews the highlighted theme),
/// handing the keys between the search and the list, or narrowing the list
/// again without a preview.
pub open spec fn loader_browsed(before: App, after: App) -> bool {
    ||| previewed(
        App { selected_theme_index: after.selected_theme_index, ..before },
        after,
        after.selected_theme_index as int,
    )
    ||| previewed(
        App {
            theme_filter: after.theme_filter,
            loadable_themes: after.loadable_themes,
            selected_theme_index: 0,
            ..before
        },
        after,
        0,
    )
    ||| searched(before, after, after.theme_search_query@, after.search_focused)
    ||| after == (App { search_focused: after.search_focused, ..before })
    ||| after == (App {
        loadable_themes: after.loadable_themes,
        selected_theme_index: after.selected_theme_index,
        ..before
    })
}

/// `after` shows loader entry `i` when it loads, and is otherwise `before`.
pub open spec fn previewed(before: App, after: App, i: int) -> bool {
    match loadable_palette(before, i) {
        Some(p) => {
            &&& after.theme.name@ == before.loadable_themes@[i].name_spec()
            &&& after.theme.palette == p
            &&& after == (App { theme: after.theme, ..before })
        },
        None => after == before,
    }
}

/// The text reported when loading `e` fails.
pub open spec fn load_error_text(e: ThemeEntry, saved: Seq<SavedTheme>) -> Seq<char> {
    match entry_lookup(e, saved) {
        Some(Err(err)) => error_text(err),
        _ => "Theme not found: "@ + e.name_spec(),
    }
}

pub proof fn lemma_visible_all_unfiltered(all: Seq<ThemeEntry>, query: Seq<char>)
    requires
        loader_query(query).len() == 0,
    ensures
        visible_entries(all, ThemeFilter::All, query) == all,
    decreases all.len(),
{
    reveal_with_fuel(Seq::filter, 1);
    let pred = |e: ThemeEntry| entry_visible(e, ThemeFilter::All, loader_query(query));
    if all.len() > 0 {
        lemma_visible_all_unfiltered(all.drop_last(), query);
        assert(all.drop_last().push(all.last()) =~= all);
    }
}

fn theme_swatches(palette: &ThemePalette) -> (r: [RgbColor; 4])
    ensures
        r@ == swatch_colors(*palette),
{
    [palette.background, palette.accent, palette.accent2, palette.active_border]
}

fn load_entry(entry: &ThemeEntry, saved: &Vec<SavedTheme>) -> (r: Result<Theme, ConfigError>)
    ensures
        loads_as(r, *entry, saved@),
{
    match entry {
        ThemeEntry::User(n) => {
            let mut i: usize = 0;
            proof {
                assert(saved@.skip(0) =~= saved@);
            }
            while i < saved.len()
                invariant
                    i <= saved.len(),
                    entry_lookup(*entry, saved@) == saved_lookup(saved@, n@),
                    entry.name_spec() == n@,
                    saved_lookup(saved@, n@) == saved_lookup(saved@.skip(i as int), n@),
                decreases saved.len() - i,
            {
                proof {
                    assert(saved@.skip(i as int).drop_first() =~= saved@.skip(i + 1));
                    assert(saved@.skip(i as int)[0] == saved@[i as int]);
                }
                if str_equal(saved[i].name.as_str(), n.as_str()) {
                    assert(saved_lookup(saved@.skip(i as int), n@) == Some(saved@[i as int].palette));
                    let r = match &saved[i].palette {
                        Ok(p) => Ok(Theme::new(n.as_str(), *p)),
                        Err(e) => Err(e.clone()),
                    };
                    assert(entry_lookup(*entry, saved@) == Some(saved@[i as int].palette));
                    return r;
                }
                i = i + 1;
            }
            Err(ConfigError::ThemeNotFound(n.clone()))
        },
        ThemeEntry::Builtin(n) => match presets::get(n) {
            Some(p) => Ok(Theme::new(n, p)),
            None => Err(ConfigError::ThemeNotFound(String::from_str(n))),
        },
    }
}

/// The search text with its leading `/`s dropped, lowercased.
/// The loader's search text as typed, without its leading slashes.
pub fn trim_leading_slashes(query: &str) -> (q: String)
    ensures
        q@ == strip_leading(query@, '/'),
{
    let cs = chars_of(query);
    let mut start: usize = 0;
    proof {
        assert(query@.skip(0) =~= query@);
    }
    while start < cs.len() && cs[start] == '/'
        invariant
            cs@ == query@,
            start <= cs.len(),
            strip_leading(query@, '/') == strip_leading(query@.skip(start as int), '/'),
        decreases cs.len() - start,
    {
        proof {
            lemma_strip_leading_step(query@, '/', start as int);
        }
        start = start + 1;
    }
    let ghost rest = query@.skip(start as int);
    proof {
        if rest.len() > 0 {
            assert(rest[0] == query@[start as int]);
        }
        assert(strip_leading(rest, '/') == rest);
    }
    let mut out = String::new();
    let mut k: usize = start;
    while k < cs.len()
        invariant
            cs@ == query@,
            start <= k <= cs.len(),
            out@ == query@.subrange(start as int, k as int),
        decreases cs.len() - k,
    {
        out.push(cs[k]);
        proof {
            assert(query@.subrange(start as int, k + 1) =~= query@.subrange(start as int, k as int).push(
                query@[k as int],
            ));
        }
        k = k + 1;
    }
    proof {
        assert(rest =~= query@.subrange(start as int, cs.len() as int));
    }
    out
}

/// The loader's search text: without leading slashes, in lower case.
fn loader_search_text(query: &String) -> (q: String)
    ensures
        q@ == loader_query(query@),
{
    let trimmed = trim_leading_slashes(query.as_str());
    lowercase_string(trimmed.as_str())
}

/// The message reporting an export's outcome.
pub open spec fn export_report(exported: Result<String, ConfigError>) -> Seq<char> {
    match exported {
        Ok(dir) => "✓ Exported to "@ + dir@,
        Err(e) => "✗ Error: "@ + error_text(e),
    }
}

/// The undo stack after recording `entry`: the newest 64 entries are kept.
pub open spec fn undo_pushed(stack: Seq<(PaletteField, RgbColor)>, entry: (PaletteField, RgbColor)) -> Seq<
    (PaletteField, RgbColor),
> {
    let s = stack.push(entry);
    if s.len() > 64 {
        s.drop_first()
    } else {
        s
    }
}

/// The message after an undo that leaves `remaining` entries.
pub open spec fn undo_report(remaining: nat) -> Seq<char> {
    if remaining == 0 {
        "Undone"@
    } else {
        "Undone ("@ + decimal_usize(remaining) + " more)"@
    }
}

/// The name of loader entry `i`, empty when there is none.
pub open spec fn entry_name_at(es: Seq<ThemeEntry>, i: int) -> Seq<char> {
    if 0 <= i < es.len() {
        es[i].name_spec()
    } else {
        Seq::empty()
    }
}

/// The message reporting the outcome of a file operation.
pub open spec fn outcome_report(done: Result<(), ConfigError>, success: Seq<char>) -> Seq<char> {
    match done {
        Ok(()) => success,
        Err(e) => "✗ "@ + error_text(e),
    }
}

/// The loader's lists rebuilt from `listed`, as `refresh_theme_list` leaves
/// them, with `message` the message before the rebuild.
pub open spec fn lists_rebuilt(
    before: App,
    after: App,
    listed: Result<Vec<SavedTheme>, ConfigError>,
    message: Seq<char>,
) -> bool {
    &&& after.saved_themes@ == listed_themes(listed)
    &&& entries_listed(after.all_themes@, listed_themes(listed))
    &&& after.message matches Some(m) && m@ == (match listed {
        Err(e) => "✗ Error listing themes: "@ + error_text(e),
        Ok(_) => message,
    })
    &&& after.loadable_themes@ == visible_entries(
        after.all_themes@,
        before.theme_filter,
        before.theme_search_query@,
    )
    &&& after.selected_theme_index == clamped_index(
        before.selected_theme_index as int,
        after.loadable_themes@.len() as int,
    )
}

/// Why an update cannot start in a given state.
pub open spec fn update_refusal(status: UpdateStatus) -> Seq<char> {
    match status {
        UpdateStatus::Checking => "Still checking for updates"@,
        UpdateStatus::UpToDate | UpdateStatus::Idle => "No update available"@,
        UpdateStatus::Downloading => "Update already in progress"@,
        UpdateStatus::Done => "Update already installed; restart to apply"@,
        UpdateStatus::Failed(err) => "✗ Update unavailable: "@ + err@,
        UpdateStatus::Available(_) => Seq::empty(),
    }
}

/// `after` is `before` with one poll of the update channel applied.
pub open spec fn update_polled(before: App, after: App, poll: UpdatePoll) -> bool {
    match poll {
        UpdatePoll::Received(msg) => {
            let done = App { update_rx: None, message: None, ..before };
            match msg {
                UpdateMsg::VersionChecked(Ok(Some(tag))) => after == (App {
                    update_status: UpdateStatus::Available(tag),
                    ..done
                }),
                UpdateMsg::VersionChecked(Ok(None)) => after == (App {
                    update_status: UpdateStatus::UpToDate,
                    ..done
                }),
                UpdateMsg::VersionChecked(Err(e)) => after == (App {
                    update_status: UpdateStatus::Failed(e),
                    ..done
                }),
                UpdateMsg::UpdateComplete(Ok(())) => after == (App {
                    update_status: UpdateStatus::Done,
                    input_mode: InputMode::UpdateRestartConfirm,
                    ..done
                }),
                UpdateMsg::UpdateComplete(Err(e)) => after == (App {
                    update_status: UpdateStatus::Failed(e),
                    ..done
                }),
            }
        },
        UpdatePoll::Disconnected => {
            &&& after.update_status matches UpdateStatus::Failed(m) && m@
                == "update worker disconnected"@
            &&& after == (App {
                update_rx: None,
                message: None,
                update_status: after.update_status,
                ..before
            })
        },
        UpdatePoll::Empty => after == before,
    }
}

/// One non-blocking read of the update channel (`Receiver::try_recv`): a
/// message, nothing yet, or the worker gone. Which one depends on the worker
/// thread, so nothing is stated of it.
#[verifier::external_body]
fn try_receive(rx: &std::sync::mpsc::Receiver<UpdateMsg>) -> (poll: UpdatePoll) {
    match rx.try_recv() {
        Ok(msg) => UpdatePoll::Received(msg),
        Err(std::sync::mpsc::TryRecvError::Empty) => UpdatePoll::Empty,
        Err(std::sync::mpsc::TryRecvError::Disconnected) => UpdatePoll::Disconnected,
    }
}

/// The swatches recorded under `name`: the last entry of that name wins, as
/// when the entries are collected into a map keyed by name.
pub open spec fn swatches_named(sw: Seq<(String, [RgbColor; 4])>, name: Seq<char>) -> Option<
    [RgbColor; 4],
>
    decreases sw.len(),
{
    if sw.len() == 0 {
        None
    } else if sw.last().0@ == name {
        Some(sw.last().1)
    } else {
        swatches_named(sw.drop_last(), name)
    }
}

/// `after` is `before` with the yanked color pasted into the selected field.
pub open spec fn pasted(before: App, after: App) -> bool {
    match before.clipboard_color {
        Some(c) => {
            let f = before.selected;
            &&& after.undo_stack@ == undo_pushed(
                before.undo_stack@,
                (f, f.value_in(before.theme.palette)),
            )
            &&& after.message matches Some(m) && m@ == "Pasted "@ + hex_string(c)
            &&& after == (App {
                theme: Theme { palette: f.set_in(before.theme.palette, c), ..before.theme },
                dirty: true,
                undo_stack: after.undo_stack,
                message: after.message,
                ..before
            })
        },
        None => {
            &&& after.message matches Some(m) && m@ == "Nothing to paste"@
            &&& after == (App { message: after.message, ..before })
        },
    }
}

/// `after` is `before` with its last color change undone.
pub open spec fn undone(before: App, after: App) -> bool {
    if before.undo_stack@.len() > 0 {
        let stack = before.undo_stack@;
        let f = stack.last().0;
        let c = stack.last().1;
        &&& after.undo_stack@ == stack.drop_last()
        &&& after.message matches Some(m) && m@ == undo_report((stack.len() - 1) as nat)
        &&& after == (App {
            selected: f,
            theme: Theme { palette: f.set_in(before.theme.palette, c), ..before.theme },
            dirty: true,
            undo_stack: after.undo_stack,
            message: after.message,
            ..before
        })
    } else {
        &&& after.message matches Some(m) && m@ == "Nothing to undo"@
        &&& after == (App { message: after.message, ..before })
    }
}

/// `after` is `before` with the color picker opened on the selected field.
pub open spec fn picker_opened(before: App, after: App) -> bool {
    after == (App {
        original_color: Some(before.selected.value_in(before.theme.palette)),
        input_mode: InputMode::ColorPicker,
        ..before
    })
}

/// `after` is `before` with `color` written into the selected field.
pub open spec fn color_applied(before: App, after: App, color: RgbColor) -> bool {
    after == (App {
        theme: Theme {
            palette: before.selected.set_in(before.theme.palette, color),
            ..before.theme
        },
        dirty: true,
        ..before
    })
}

/// `after` is `before` with the color picker closed, keeping the change when `save`.
pub open spec fn picker_closed(before: App, after: App, save: bool) -> bool {
    ({
        let cur = before.selected.value_in(before.theme.palette);
        if save {
            let stack = match before.original_color {
                Some(o) => if cur != o {
                    undo_pushed(before.undo_stack@, (before.selected, o))
                } else {
                    before.undo_stack@
                },
                None => before.undo_stack@,
            };
            &&& after.undo_stack@ == stack
            &&& after == (App {
                undo_stack: after.undo_stack,
                original_color: None,
                input_mode: InputMode::Preview,
                ..before
            })
        } else {
            match before.original_color {
                Some(o) => after == (App {
                    theme: Theme {
                        palette: before.selected.set_in(before.theme.palette, o),
                        ..before.theme
                    },
                    dirty: true,
                    original_color: None,
                    input_mode: InputMode::Preview,
                    ..before
                }),
                None => after == (App {
                    original_color: None,
                    input_mode: InputMode::Preview,
                    ..before
                }),
            }
        }
    })
}

// ── The editor ───────────────────────────────────────────────────────────────

fn message(text: &str) -> (m: Option<String>)
    ensures
        m matches Some(s) && s@ == text@,
{
    Some(String::from_str(text))
}

/// The state a fresh editor starts in.
pub open spec fn is_initial_state(a: App) -> bool {
    &&& a.theme.name@ == "untitled"@
    &&& a.theme.palette == crate::theme::default_palette()
    &&& a.selected == PaletteField::Background
    &&& !a.apply_available
    &&& a.message is None
    &&& a.input_mode == InputMode::Preview
    &&& a.original_color is None
    &&& a.theme_name_input@ == "untitled"@
    &&& a.all_themes@.len() == 0
    &&& a.loadable_themes@.len() == 0
    &&& a.theme_filter == ThemeFilter::All
    &&& a.selected_theme_index == 0
    &&& !a.dirty
    &&& a.original_theme is None
    &&& a.theme_swatches@.len() == 0
    &&& a.saved_themes@.len() == 0
    &&& a.theme_search_query@.len() == 0
    &&& !a.search_focused
    &&& a.help_scroll == 0
    &&& a.clipboard_color is None
    &&& a.undo_stack@.len() == 0
    &&& a.loader_action_index == 0
    &&& a.field_search_query@.len() == 0
    &&& a.field_search_index == 0
    &&& a.update_status == UpdateStatus::Idle
    &&& a.update_rx is None
    &&& !a.restart_after_exit
    &&& !a.force_redraw
}

impl Default for App {
    /// A fresh editor on the default palette. Whether an apply command exists
    /// is for the caller to find out and record in `apply_available`.
    fn default() -> (a: Self)
        ensures
            is_initial_state(a),
    {
        App {
            theme: Theme::default(),
            selected: PaletteField::Background,
            apply_available: false,
            message: None,
            input_mode: InputMode::Preview,
            original_color: None,
            theme_name_input: String::from_str("untitled"),
            all_themes: Vec::new(),
            loadable_themes: Vec::new(),
            theme_filter: ThemeFilter::All,
            selected_theme_index: 0,
            dirty: false,
            original_theme: None,
            theme_swatches: Vec::new(),
            saved_themes: Vec::new(),
            theme_search_query: String::new(),
            search_focused: false,
            help_scroll: 0,
            clipboard_color: None,
            undo_stack: Vec::new(),
            loader_action_index: 0,
            field_search_query: String::new(),
            field_search_index: 0,
            update_status: UpdateStatus::Idle,
            update_rx: None,
            restart_after_exit: false,
            force_redraw: false,
        }
    }
}

impl App {
    pub fn new() -> (a: Self)
        ensures
            is_initial_state(a),
    {
        let mut app = Self::default();
        app.sync_theme_name_input();
        app
    }

    // ── Field selection / navigation ─────────────────────────────────────────

    fn group_field_index(&self) -> (i: usize)
        ensures
            i == slot_in_group(self.selected),
    {
        let fields = self.selected.group().fields();
        let mut i: usize = 0;
        while i < fields.len()
            invariant
                fields@ == self.selected.group_spec().fields_spec(),
                i <= fields.len(),
                forall|j: int| 0 <= j < i ==> fields@[j] != self.selected,
            decreases fields.len() - i,
        {
            if fields[i] == self.selected {
                return i;
            }
            i = i + 1;
        }
        0
    }

    /// ↑/k — previous field within the current group (wraps inside the group).
    pub fn prev_field_in_group(&mut self)
        ensures
            *final(self) == (App { selected: prev_in_group(old(self).selected), ..*old(self) }),
    {
        let fields = self.selected.group().fields();
        let idx = self.group_field_index();
        let next = if idx == 0 {
            fields.len() - 1
        } else {
            idx - 1
        };
        self.selected = fields[next];
    }

    /// ↓/j — next field within the current group (wraps inside the group).
    pub fn next_field_in_group(&mut self)
        ensures
            *final(self) == (App { selected: next_in_group(old(self).selected), ..*old(self) }),
    {
        let fields = self.selected.group().fields();
        let idx = self.group_field_index();
        self.selected = fields[(idx + 1) % fields.len()];
    }

    pub fn select_group(&mut self, group: PaletteGroup)
        ensures
            *final(self) == (App { selected: first_field(group), ..*old(self) }),
    {
        self.selected = group.fields()[0];
    }

    /// Number keys 1–6 → jump straight to that group's first field.
    pub fn select_group_index(&mut self, n: usize)
        ensures
            n < 6 ==> *final(self) == (App { selected: first_field(all_groups()[n as int]), ..*old(self) }),
            n >= 6 ==> *final(self) == *old(self),
    {
        let groups = PaletteGroup::all();
        if n < groups.len() {
            self.select_group(groups[n]);
        }
    }

    pub fn next_group(&mut self)
        ensures
            *final(self) == (App {
                selected: first_field(next_group_of(old(self).selected.group_spec())),
                ..*old(self)
            }),
    {
        let groups = PaletteGroup::all();
        let idx = self.selected.group().index();
        self.select_group(groups[(idx + 1) % groups.len()]);
    }

    pub fn prev_group(&mut self)
        ensures
            *final(self) == (App {
                selected: first_field(prev_group_of(old(self).selected.group_spec())),
                ..*old(self)
            }),
    {
        let groups = PaletteGroup::all();
        let idx = self.selected.group().index();
        let next = if idx == 0 {
            groups.len() - 1
        } else {
            idx - 1
        };
        self.select_group(groups[next]);
    }

    pub fn sync_theme_name_input(&mut self)
        ensures
            final(self).theme_name_input@ == old(self).theme.name@,
            *final(self) == (App { theme_name_input: final(self).theme_name_input, ..*old(self) }),
    {
        self.theme_name_input = self.theme.name.clone();
    }

    // ── Fuzzy field palette ( / ) ────────────────────────────────────────────

    pub fn open_field_search(&mut self)
        ensures
            final(self).field_search_query@.len() == 0,
            *final(self) == (App {
                field_search_query: final(self).field_search_query,
                field_search_index: 0,
                input_mode: InputMode::FieldSearch,
                message: None,
                ..*old(self)
            }),
    {
        self.field_search_query = String::new();
        self.field_search_index = 0;
        self.input_mode = InputMode::FieldSearch;
        self.message = None;
    }

    /// Fields whose "<group> <label>" contains the query, ignoring ASCII case
    /// (all fields when the query is empty).
    pub fn filtered_fields(&self) -> (r: Vec<PaletteField>)
        ensures
            r@ == fields_matching(self.field_search_query@),
    {
        let q = lowercase_string(self.field_search_query.as_str());
        let all = PaletteField::all();
        let ghost pred = |f: PaletteField| field_matches(f, lowercase_seq(self.field_search_query@));
        let mut out: Vec<PaletteField> = Vec::new();
        let mut i: usize = 0;
        proof {
            reveal_with_fuel(Seq::filter, 1);
        }
        while i < all.len()
            invariant
                all@ == all_fields(),
                q@ == lowercase_seq(self.field_search_query@),
                pred == (|f: PaletteField| field_matches(f, lowercase_seq(self.field_search_query@))),
                i <= all.len(),
                out@ == all_fields().take(i as int).filter(pred),
            decreases all.len() - i,
        {
            let f = all[i];
            let keep = if q.as_str().is_empty() {
                true
            } else {
                let mut hay = String::from_str(f.group().label());
                hay.push(' ');
                hay.append(f.label());
                assert(hay@ =~= f.group_spec().label_spec() + seq![' '] + f.label_spec());
                let low = lowercase_string(hay.as_str());
                contains_str(low.as_str(), q.as_str())
            };
            assert(keep == pred(f));
            proof {
                reveal_with_fuel(Seq::filter, 1);
                let t = all_fields().take(i + 1);
                assert(t.drop_last() =~= all_fields().take(i as int));
                assert(t.last() == f);
                assert(t.filter(pred) == (if pred(f) {
                    t.drop_last().filter(pred).push(f)
                } else {
                    t.drop_last().filter(pred)
                }));
            }
            if keep {
                out.push(f);
            }
            i = i + 1;
        }
        proof {
            assert(all_fields().take(17) =~= all_fields());
        }
        out
    }

    pub fn push_field_search_char(&mut self, c: char)
        ensures
            final(self).field_search_query@ == old(self).field_search_query@.push(c),
            *final(self) == (App {
                field_search_query: final(self).field_search_query,
                field_search_index: 0,
                ..*old(self)
            }),
    {
        self.field_search_query.push(c);
        self.field_search_index = 0;
    }

    pub fn pop_field_search_char(&mut self)
        ensures
            final(self).field_search_query@ == (if old(self).field_search_query@.len() == 0 {
                old(self).field_search_query@
            } else {
                old(self).field_search_query@.drop_last()
            }),
            *final(self) == (App {
                field_search_query: final(self).field_search_query,
                field_search_index: 0,
                ..*old(self)
            }),
    {
        self.field_search_query.pop();
        self.field_search_index = 0;
    }

    /// Moves the finder's highlight by `delta`, wrapping around the matches.
    pub fn move_field_search(&mut self, delta: i32)
        requires
            fields_matching(old(self).field_search_query@).len() == 0 || min_usize(
                old(self).field_search_index as int,
                fields_matching(old(self).field_search_query@).len() - 1,
            ) + delta <= i32::MAX,
        ensures
            final(self).field_search_index == finder_moved(
                fields_matching(old(self).field_search_query@).len() as int,
                old(self).field_search_index as int,
                delta as int,
            ),
            *final(self) == (App { field_search_index: final(self).field_search_index, ..*old(self) }),
    {
        let len = self.filtered_fields().len();
        if len == 0 {
            self.field_search_index = 0;
            return;
        }
        let cur = if self.field_search_index < len - 1 {
            self.field_search_index
        } else {
            len - 1
        };
        let sum: i32 = (cur as i32) + delta;
        let wrapped: usize = if sum >= 0 {
            (sum as usize) % len
        } else {
            let neg: u64 = (-(sum as i64)) as u64;
            let k: u64 = neg % (len as u64);
            proof {
                lemma_negative_euclid(sum as int, len as int, k as int);
            }
            if k == 0 {
                0
            } else {
                len - (k as usize)
            }
        };
        self.field_search_index = wrapped;
    }

    /// Selects the highlighted match and returns to the preview.
    pub fn commit_field_search(&mut self)
        ensures
            ({
                let matches = fields_matching(old(self).field_search_query@);
                let i = old(self).field_search_index as int;
                if i < matches.len() {
                    &&& final(self).message matches Some(m) && m@ == "→ "@ + matches[i].label_spec()
                    &&& *final(self) == (App {
                        selected: matches[i],
                        message: final(self).message,
                        input_mode: InputMode::Preview,
                        ..*old(self)
                    })
                } else {
                    *final(self) == (App { input_mode: InputMode::Preview, ..*old(self) })
                }
            }),
    {
        let matches = self.filtered_fields();
        if self.field_search_index < matches.len() {
            let f = matches[self.field_search_index];
            self.selected = f;
            let mut m = String::from_str("→ ");
            m.append(f.label());
            self.message = Some(m);
        }
        self.input_mode = InputMode::Preview;
    }

    pub fn cancel_field_search(&mut self)
        ensures
            *final(self) == (App { input_mode: InputMode::Preview, message: None, ..*old(self) }),
    {
        self.input_mode = InputMode::Preview;
        self.message = None;
    }

    pub fn current_color(&self) -> (c: RgbColor)
        ensures
            c == self.selected.value_in(self.theme.palette),
    {
        self.selected.get(&self.theme.palette)
    }

    fn set_current_color(&mut self, color: RgbColor)
        ensures
            *final(self) == (App {
                theme: Theme {
                    palette: old(self).selected.set_in(old(self).theme.palette, color),
                    ..old(self).theme
                },
                dirty: true,
                ..*old(self)
            }),
    {
        *self.selected.get_mut(&mut self.theme.palette) = color;
        self.dirty = true;
    }

    // ── Theme loader ─────────────────────────────────────────────────────────

    /// Opens the loader on a fresh read of the saved themes, highlighting the
    /// theme being edited and previewing the highlighted entry.
    pub fn open_theme_load_dialog(&mut self, listed: Result<Vec<SavedTheme>, ConfigError>)
        ensures
            final(self).theme_search_query@.len() == 0,
            final(self).saved_themes@ == listed_themes(listed),
            entries_listed(final(self).all_themes@, listed_themes(listed)),
            final(self).loadable_themes@ == final(self).all_themes@,
            ({
                let es = final(self).loadable_themes@;
                let i = final(self).selected_theme_index as int;
                let name = old(self).theme.name@;
                ||| (i < es.len() && es[i].name_spec() == name && forall|j: int|
                    0 <= j < i ==> (#[trigger] es[j]).name_spec() != name)
                ||| (i == 0 && forall|j: int| 0 <= j < es.len() ==> (#[trigger] es[j]).name_spec() != name)
            }),
            final(self).theme_swatches@.len() == final(self).all_themes@.len(),
            forall|i: int|
                0 <= i < final(self).all_themes@.len() ==> (#[trigger] final(self).theme_swatches@[i]).0@
                    == final(self).all_themes@[i].name_spec() && final(self).theme_swatches@[i].1@
                    == entry_swatches(final(self).all_themes@[i], final(self).saved_themes@),
            previewed(
                App { theme: old(self).theme, ..*final(self) },
                *final(self),
                final(self).selected_theme_index as int,
            ),
            final(self).message matches Some(m) && m@ == "Select a theme to load"@,
            loader_opened(*old(self), *final(self)),
            *final(self) == (App {
                theme: final(self).theme,
                theme_search_query: final(self).theme_search_query,
                search_focused: false,
                theme_filter: ThemeFilter::All,
                original_theme: Some(old(self).theme),
                saved_themes: final(self).saved_themes,
                all_themes: final(self).all_themes,
                loadable_themes: final(self).loadable_themes,
                selected_theme_index: final(self).selected_theme_index,
                theme_swatches: final(self).theme_swatches,
                input_mode: InputMode::ThemeLoad,
                message: final(self).message,
                ..*old(self)
            }),
    {
        self.theme_search_query = String::new();
        self.search_focused = false;
        self.theme_filter = ThemeFilter::All;
        self.original_theme = Some(self.theme.clone());
        self.refresh_theme_list(listed);
        proof {
            lemma_visible_all_unfiltered(self.all_themes@, self.theme_search_query@);
        }
        let mut pos: usize = 0;
        let mut found = false;
        while pos < self.loadable_themes.len()
            invariant_except_break
                !found,
            invariant
                pos <= self.loadable_themes.len(),
                forall|j: int|
                    0 <= j < pos ==> (#[trigger] self.loadable_themes@[j]).name_spec() != self.theme.name@,
            ensures
                found ==> pos < self.loadable_themes.len() && self.loadable_themes@[pos as int].name_spec()
                    == self.theme.name@,
                !found ==> pos == self.loadable_themes.len(),
            decreases self.loadable_themes.len() - pos,
        {
            if str_equal(self.loadable_themes[pos].name(), self.theme.name.as_str()) {
                found = true;
                break;
            }
            pos = pos + 1;
        }
        self.selected_theme_index = if found {
            pos
        } else {
            0
        };
        let mut swatches: Vec<(String, [RgbColor; 4])> = Vec::new();
        let mut i: usize = 0;
        while i < self.all_themes.len()
            invariant
                i <= self.all_themes.len(),
                swatches@.len() == i,
                forall|k: int|
                    0 <= k < i ==> (#[trigger] swatches@[k]).0@ == self.all_themes@[k].name_spec()
                        && swatches@[k].1@ == entry_swatches(self.all_themes@[k], self.saved_themes@),
            decreases self.all_themes.len() - i,
        {
            let entry = &self.all_themes[i];
            let sw = match load_entry(entry, &self.saved_themes) {
                Ok(t) => theme_swatches(&t.palette),
                Err(_) => [RgbColor::new(50, 50, 50); 4],
            };
            proof {
                if entry_lookup(*entry, self.saved_themes@) is Some && entry_lookup(
                    *entry,
                    self.saved_themes@,
                )->0 is Ok {
                } else {
                    assert(sw@ =~= entry_swatches(*entry, self.saved_themes@));
                }
            }
            swatches.push((String::from_str(entry.name()), sw));
            i = i + 1;
        }
        self.theme_swatches = swatches;
        self.preview_selected_theme();
        self.input_mode = InputMode::ThemeLoad;
        self.message = message("Select a theme to load");
    }

    /// Loads the highlighted entry into the editor and closes the loader; when
    /// it cannot be loaded, says so and stays in the loader.
    pub fn load_selected_theme(&mut self)
        ensures
            ({
                let i = old(self).selected_theme_index as int;
                let es = old(self).loadable_themes@;
                if i < es.len() {
                    let e = es[i];
                    match loadable_palette(*old(self), i) {
                        Some(p) => {
                            &&& final(self).theme.name@ == e.name_spec()
                            &&& final(self).theme.palette == p
                            &&& final(self).theme_name_input@ == e.name_spec()
                            &&& final(self).message matches Some(m) && m@ == "✓ Loaded: "@
                                + e.name_spec()
                            &&& *final(self) == (App {
                                theme: final(self).theme,
                                theme_name_input: final(self).theme_name_input,
                                original_theme: None,
                                dirty: false,
                                message: final(self).message,
                                input_mode: InputMode::Preview,
                                ..*old(self)
                            })
                        },
                        None => {
                            &&& final(self).message matches Some(m) && m@ == "✗ Error loading \""@
                                + e.name_spec() + "\": "@ + load_error_text(e, old(self).saved_themes@)
                            &&& *final(self) == (App { message: final(self).message, ..*old(self) })
                        },
                    }
                } else {
                    *final(self) == *old(self)
                }
            }),
    {
        if self.selected_theme_index < self.loadable_themes.len() {
            let entry = self.loadable_themes[self.selected_theme_index].clone();
            let name = String::from_str(entry.name());
            match load_entry(&entry, &self.saved_themes) {
                Ok(t) => self.theme = t,
                Err(e) => {
                    let mut m = String::from_str("✗ Error loading \"");
                    m.append(name.as_str());
                    m.append("\": ");
                    m.append(e.message().as_str());
                    self.message = Some(m);
                    return;
                },
            }
            self.sync_theme_name_input();
            self.original_theme = None;
            self.dirty = false;
            let mut m = String::from_str("✓ Loaded: ");
            m.append(name.as_str());
            self.message = Some(m);
            self.input_mode = InputMode::Preview;
        }
    }

    /// Closes the loader, putting back the theme that was being edited.
    pub fn cancel_theme_load(&mut self)
        ensures
            loader_cancelled(*old(self), *final(self)),
    {
        if let Some(original) = self.original_theme.take() {
            self.theme = original;
        }
        self.sync_theme_name_input();
        self.theme_search_query = String::new();
        self.search_focused = false;
        self.input_mode = InputMode::Preview;
        self.message = None;
    }

    /// Rebuilds the loader's lists from a fresh read of the saved themes: the
    /// saved themes sorted by name, then the built-in presets, narrowed by the
    /// current filter and search. When listing failed, says so and lists the
    /// presets alone.
    pub fn refresh_theme_list(&mut self, listed: Result<Vec<SavedTheme>, ConfigError>)
        ensures
            final(self).saved_themes@ == listed_themes(listed),
            entries_listed(final(self).all_themes@, listed_themes(listed)),
            match listed {
                Err(e) => final(self).message matches Some(m) && m@ == "✗ Error listing themes: "@
                    + error_text(e),
                Ok(_) => final(self).message == old(self).message,
            },
            final(self).loadable_themes@ == visible_entries(
                final(self).all_themes@,
                old(self).theme_filter,
                old(self).theme_search_query@,
            ),
            final(self).selected_theme_index == clamped_index(
                old(self).selected_theme_index as int,
                final(self).loadable_themes@.len() as int,
            ),
            *final(self) == (App {
                saved_themes: final(self).saved_themes,
                all_themes: final(self).all_themes,
                loadable_themes: final(self).loadable_themes,
                selected_theme_index: final(self).selected_theme_index,
                message: final(self).message,
                ..*old(self)
            }),
    {
        let users: Vec<SavedTheme> = match listed {
            Ok(v) => v,
            Err(e) => {
                let mut m = String::from_str("✗ Error listing themes: ");
                m.append(e.message().as_str());
                self.message = Some(m);
                Vec::new()
            },
        };
        let mut names: Vec<String> = Vec::new();
        let mut i: usize = 0;
        while i < users.len()
            invariant
                i <= users.len(),
                string_views(names@) == saved_names(users@.take(i as int)),
            decreases users.len() - i,
        {
            names.push(users[i].name.clone());
            proof {
                assert(saved_names(users@.take(i + 1)) =~= saved_names(users@.take(i as int)).push(
                    users@[i as int].name@,
                ));
                assert(string_views(names@) =~= string_views(names@.drop_last()).push(
                    names@.last()@,
                ));
            }
            i = i + 1;
        }
        proof {
            assert(users@.take(users.len() as int) =~= users@);
        }
        let sorted = sort_strings(names);
        let mut entries: Vec<ThemeEntry> = Vec::new();
        let mut j: usize = 0;
        while j < sorted.len()
            invariant
                j <= sorted.len(),
                entries@.len() == j,
                forall|k: int| 0 <= k < j ==> (#[trigger] entries@[k]) is User,
                entry_names(entries@) == string_views(sorted@.take(j as int)),
            decreases sorted.len() - j,
        {
            entries.push(ThemeEntry::User(sorted[j].clone()));
            proof {
                assert(entry_names(entries@) =~= entry_names(entries@.drop_last()).push(
                    entries@.last().name_spec(),
                ));
                assert(entries@.drop_last() =~= entries@.take(j as int));
                assert(string_views(sorted@.take(j + 1)) =~= string_views(sorted@.take(j as int)).push(
                    sorted@[j as int]@,
                ));
            }
            j = j + 1;
        }
        proof {
            assert(sorted@.take(sorted.len() as int) =~= sorted@);
        }
        let ghost user_entries = entries@;
        let builtin = presets::builtins();
        assert(builtin@.len() == 4) by {
            assert(builtin@.map_values(|e: (&'static str, ThemePalette)| (e.0@, e.1)).len()
                == builtin@.len());
        }
        let mut b: usize = 0;
        while b < builtin.len()
            invariant
                builtin@.map_values(|e: (&'static str, ThemePalette)| (e.0@, e.1)) == builtin_presets(),
                b <= builtin.len(),
                builtin@.len() == 4,
                entries@.len() == user_entries.len() + b,
                entries@.take(user_entries.len() as int) == user_entries,
                forall|k: int|
                    0 <= k < b ==> (#[trigger] entries@[user_entries.len() + k]) is Builtin
                        && entries@[user_entries.len() + k].name_spec() == builtin_presets()[k].0,
            decreases builtin.len() - b,
        {
            let (n, _) = builtin[b];
            proof {
                assert(builtin@.map_values(|e: (&'static str, ThemePalette)| (e.0@, e.1))[b as int].0
                    == builtin@[b as int].0@);
            }
            entries.push(ThemeEntry::Builtin(n));
            proof {
                assert(entries@.take(user_entries.len() as int) =~= user_entries);
            }
            b = b + 1;
        }
        proof {
            assert(entries@.take(user_entries.len() as int) =~= user_entries);
            assert(entry_names(user_entries) == string_views(sorted@));
            vstd::seq_lib::to_multiset_len(string_views(sorted@));
            vstd::seq_lib::to_multiset_len(saved_names(users@));
            assert(user_entries.len() == users@.len());
            let es = entries@;
            let k = users@.len() as int;
            assert(es.len() == k + 4);
            assert(forall|i: int| 0 <= i < k ==> #[trigger] es[i] is User) by {
                assert forall|i: int| 0 <= i < k implies #[trigger] es[i] is User by {
                    assert(es[i] == user_entries[i]);
                }
            }
            assert(is_sorted_names(entry_names(es.take(k))));
            assert(entry_names(es.take(k)).to_multiset() == saved_names(users@).to_multiset());
            assert(forall|j: int|
                0 <= j < 4 ==> (#[trigger] es[k + j]) is Builtin && es[k + j].name_spec()
                    == builtin_presets()[j].0);
            assert(users@ == listed_themes(listed));
        }
        self.all_themes = entries;
        self.saved_themes = users;
        self.apply_filter_to_list();
    }

    /// Narrows the loader's list to the entries the filter and the search let
    /// through (the search matches names as a subsequence, ignoring case and
    /// leading `/`s), keeping the highlight inside the list.
    pub fn apply_filter_to_list(&mut self)
        ensures
            loader_browsed(*old(self), *final(self)),
            final(self).loadable_themes@ == visible_entries(
                old(self).all_themes@,
                old(self).theme_filter,
                old(self).theme_search_query@,
            ),
            final(self).selected_theme_index == clamped_index(
                old(self).selected_theme_index as int,
                final(self).loadable_themes@.len() as int,
            ),
            *final(self) == (App {
                loadable_themes: final(self).loadable_themes,
                selected_theme_index: final(self).selected_theme_index,
                ..*old(self)
            }),
    {
        let q = loader_search_text(&self.theme_search_query);
        let ghost pred = |e: ThemeEntry|
            entry_visible(e, self.theme_filter, loader_query(self.theme_search_query@));
        let mut out: Vec<ThemeEntry> = Vec::new();
        let mut i: usize = 0;
        proof {
            reveal_with_fuel(Seq::filter, 1);
        }
        while i < self.all_themes.len()
            invariant
                q@ == loader_query(self.theme_search_query@),
                pred == (|e: ThemeEntry|
                    entry_visible(e, self.theme_filter, loader_query(self.theme_search_query@))),
                i <= self.all_themes.len(),
                out@ == self.all_themes@.take(i as int).filter(pred),
            decreases self.all_themes.len() - i,
        {
            let e = &self.all_themes[i];
            let matches_filter = match self.theme_filter {
                ThemeFilter::All => true,
                ThemeFilter::Builtin => e.is_builtin(),
                ThemeFilter::Saved => !e.is_builtin(),
            };
            let matches_search = if q.as_str().is_empty() {
                true
            } else {
                let low = lowercase_string(e.name());
                fuzzy_match(low.as_str(), q.as_str())
            };
            assert((matches_filter && matches_search) == pred(*e));
            proof {
                reveal_with_fuel(Seq::filter, 1);
                let t = self.all_themes@.take(i + 1);
                assert(t.drop_last() =~= self.all_themes@.take(i as int));
                assert(t.last() == *e);
            }
            if matches_filter && matches_search {
                out.push(e.clone());
            }
            i = i + 1;
        }
        proof {
            assert(self.all_themes@.take(self.all_themes.len() as int) =~= self.all_themes@);
        }
        self.loadable_themes = out;
        if self.selected_theme_index >= self.loadable_themes.len() {
            self.selected_theme_index = if self.loadable_themes.len() == 0 {
                0
            } else {
                self.loadable_themes.len() - 1
            };
        }
    }

    /// Selects a filter (selecting the active one again returns to all),
    /// highlights the first entry and previews it.
    pub fn set_theme_filter(&mut self, filter: ThemeFilter)
        ensures
            loader_browsed(*old(self), *final(self)),
            ({
                let f = if old(self).theme_filter == filter {
                    ThemeFilter::All
                } else {
                    filter
                };
                let listed = App {
                    theme_filter: f,
                    loadable_themes: final(self).loadable_themes,
                    selected_theme_index: 0,
                    ..*old(self)
                };
                &&& final(self).loadable_themes@ == visible_entries(
                    old(self).all_themes@,
                    f,
                    old(self).theme_search_query@,
                )
                &&& previewed(listed, *final(self), 0)
            }),
    {
        self.theme_filter = if self.theme_filter == filter {
            ThemeFilter::All
        } else {
            filter
        };
        self.apply_filter_to_list();
        self.selected_theme_index = 0;
        self.preview_selected_theme();
    }

    pub fn move_theme_selection_up(&mut self)
        ensures
            loader_browsed(*old(self), *final(self)),
            moved_up(*old(self), *final(self)),
    {
        if self.loadable_themes.len() == 0 {
            self.selected_theme_index = 0;
        } else if self.selected_theme_index == 0 {
            self.selected_theme_index = self.loadable_themes.len() - 1;
        } else {
            self.selected_theme_index = self.selected_theme_index - 1;
        }
        self.preview_selected_theme();
    }

    pub fn move_theme_selection_down(&mut self)
        requires
            old(self).loadable_themes@.len() == 0 || old(self).selected_theme_index < usize::MAX,
        ensures
            loader_browsed(*old(self), *final(self)),
            moved_down(*old(self), *final(self)),
    {
        if self.loadable_themes.len() == 0 {
            self.selected_theme_index = 0;
        } else {
            self.selected_theme_index = (self.selected_theme_index + 1) % self.loadable_themes.len();
        }
        self.preview_selected_theme();
    }

    pub fn move_theme_selection_to(&mut self, index: usize)
        ensures
            loader_browsed(*old(self), *final(self)),
            previewed(
                App { selected_theme_index: index, ..*old(self) },
                *final(self),
                index as int,
            ),
    {
        self.selected_theme_index = index;
        self.preview_selected_theme();
    }

    fn preview_selected_theme(&mut self)
        ensures
            previewed(*old(self), *final(self), old(self).selected_theme_index as int),
    {
        if self.selected_theme_index < self.loadable_themes.len() {
            let entry = &self.loadable_themes[self.selected_theme_index];
            match load_entry(entry, &self.saved_themes) {
                Ok(t) => self.theme = t,
                Err(_) => {},
            }
        }
    }

    // ── Save / export ────────────────────────────────────────────────────────

    pub fn open_theme_name_input(&mut self)
        ensures
            final(self).theme_name_input@ == old(self).theme.name@,
            final(self).message matches Some(m) && m@
                == "Enter a theme name, then press Enter to export"@,
            *final(self) == (App {
                theme_name_input: final(self).theme_name_input,
                input_mode: InputMode::ThemeNameInput,
                message: final(self).message,
                ..*old(self)
            }),
    {
        self.sync_theme_name_input();
        self.input_mode = InputMode::ThemeNameInput;
        self.message = message("Enter a theme name, then press Enter to export");
    }

    /// Takes the typed name as the theme's name (normalized), ready to export.
    /// Returns whether the theme is to be exported now; when the name has no
    /// usable characters it says so instead. After the export, call
    /// `finish_save_theme` with its outcome.
    pub fn save_theme_as_input_name(&mut self) -> (export: bool)
        ensures
            ({
                let n = normalized_name(old(self).theme_name_input@);
                if n.len() == 0 {
                    &&& !export
                    &&& final(self).message matches Some(m) && m@
                        == "✗ Theme name must contain letters or numbers"@
                    &&& *final(self) == (App { message: final(self).message, ..*old(self) })
                } else {
                    &&& export
                    &&& final(self).theme.name@ == n
                    &&& final(self).theme_name_input@ == n
                    &&& *final(self) == (App {
                        theme: Theme { name: final(self).theme.name, ..old(self).theme },
                        theme_name_input: final(self).theme_name_input,
                        ..*old(self)
                    })
                }
            }),
    {
        let normalized = normalize_theme_name(self.theme_name_input.as_str());
        if normalized.as_str().is_empty() {
            self.message = message("✗ Theme name must contain letters or numbers");
            return false;
        }
        self.theme.name = normalized;
        self.sync_theme_name_input();
        true
    }

    /// Completes a save: reports the export's outcome, rebuilds the loader
    /// lists from a fresh read of the saved themes, and returns to the preview.
    pub fn finish_save_theme(
        &mut self,
        exported: Result<String, ConfigError>,
        listed: Result<Vec<SavedTheme>, ConfigError>,
    )
        ensures
            final(self).dirty == (old(self).dirty && exported is Err),
            final(self).input_mode == InputMode::Preview,
            final(self).saved_themes@ == listed_themes(listed),
            entries_listed(final(self).all_themes@, listed_themes(listed)),
            final(self).message matches Some(m) && m@ == (match listed {
                Err(e) => "✗ Error listing themes: "@ + error_text(e),
                Ok(_) => export_report(exported),
            }),
            final(self).loadable_themes@ == visible_entries(
                final(self).all_themes@,
                old(self).theme_filter,
                old(self).theme_search_query@,
            ),
            final(self).selected_theme_index == clamped_index(
                old(self).selected_theme_index as int,
                final(self).loadable_themes@.len() as int,
            ),
            *final(self) == (App {
                dirty: final(self).dirty,
                input_mode: InputMode::Preview,
                saved_themes: final(self).saved_themes,
                all_themes: final(self).all_themes,
                loadable_themes: final(self).loadable_themes,
                selected_theme_index: final(self).selected_theme_index,
                message: final(self).message,
                ..*old(self)
            }),
    {
        self.export_theme(exported);
        self.refresh_theme_list(listed);
        self.input_mode = InputMode::Preview;
    }

    /// Reports an export's outcome: where it went (and the edits are saved),
    /// or why it failed.
    pub fn export_theme(&mut self, exported: Result<String, ConfigError>)
        ensures
            final(self).message matches Some(m) && m@ == export_report(exported),
            final(self).dirty == (old(self).dirty && exported is Err),
            *final(self) == (App { message: final(self).message, dirty: final(self).dirty, ..*old(self) }),
    {
        match exported {
            Ok(dir) => {
                let mut m = String::from_str("✓ Exported to ");
                m.append(dir.as_str());
                self.message = Some(m);
                self.dirty = false;
            },
            Err(e) => {
                let mut m = String::from_str("✗ Error: ");
                m.append(e.message().as_str());
                self.message = Some(m);
            },
        }
    }

    // ── Apply (gated, confirmed) ─────────────────────────────────────────────

    /// Asks for confirmation before applying, when an apply command exists and
    /// the theme has a usable name (otherwise asks for a name first).
    pub fn begin_apply(&mut self)
        ensures
            apply_begun(*old(self), *final(self)),
    {
        if !self.apply_available {
            self.message = message("omarchy-theme-set not found — export only");
            return;
        }
        let name = normalize_theme_name(self.theme.name.as_str());
        if name.as_str().is_empty() {
            self.open_theme_name_input();
            return;
        }
        self.input_mode = InputMode::ApplyConfirm;
        let mut m = String::from_str("Apply \"");
        m.append(name.as_str());
        m.append("\" to the live desktop with omarchy-theme-set? y = yes, n = no");
        self.message = Some(m);
    }

    /// Completes an apply: the theme was exported (so its directory is on
    /// disk) and then applied under its name; reports the apply's outcome.
    pub fn confirm_apply(&mut self, exported: Result<String, ConfigError>, applied: Result<(), ConfigError>)
        ensures
            final(self).dirty == (old(self).dirty && exported is Err),
            final(self).message matches Some(m) && m@ == (match applied {
                Ok(()) => "✓ Applied \""@ + old(self).theme.name@ + "\""@,
                Err(e) => "✗ "@ + error_text(e),
            }),
            *final(self) == (App {
                dirty: final(self).dirty,
                message: final(self).message,
                input_mode: InputMode::Preview,
                force_redraw: true,
                ..*old(self)
            }),
    {
        self.export_theme(exported);
        let name = self.theme.name.clone();
        match applied {
            Ok(()) => {
                let mut m = String::from_str("✓ Applied \"");
                m.append(name.as_str());
                m.append("\"");
                self.message = Some(m);
            },
            Err(e) => {
                let mut m = String::from_str("✗ ");
                m.append(e.message().as_str());
                self.message = Some(m);
            },
        }
        self.input_mode = InputMode::Preview;
        self.force_redraw = true;
    }

    pub fn cancel_apply(&mut self)
        ensures
            final(self).message matches Some(m) && m@ == "Apply cancelled"@,
            *final(self) == (App {
                input_mode: InputMode::Preview,
                message: final(self).message,
                ..*old(self)
            }),
    {
        self.input_mode = InputMode::Preview;
        self.message = message("Apply cancelled");
    }

    // ── Name input ───────────────────────────────────────────────────────────

    /// Types a character into the name field; only letters, digits, `-`, `_`
    /// and space are taken.
    pub fn push_theme_name_char(&mut self, c: char)
        ensures
            final(self).theme_name_input@ == (if is_ascii_alphanumeric_spec(c) || c == '-' || c == '_'
                || c == ' ' {
                old(self).theme_name_input@.push(c)
            } else {
                old(self).theme_name_input@
            }),
            *final(self) == (App { theme_name_input: final(self).theme_name_input, ..*old(self) }),
    {
        if is_ascii_alphanumeric(c) || c == '-' || c == '_' || c == ' ' {
            self.theme_name_input.push(c);
        }
    }

    pub fn pop_theme_name_char(&mut self)
        ensures
            final(self).theme_name_input@ == (if old(self).theme_name_input@.len() == 0 {
                old(self).theme_name_input@
            } else {
                old(self).theme_name_input@.drop_last()
            }),
            *final(self) == (App { theme_name_input: final(self).theme_name_input, ..*old(self) }),
    {
        self.theme_name_input.pop();
    }

    // ── Color picker ─────────────────────────────────────────────────────────

    /// Writes the picker's color into the selected field.
    pub fn apply_current_color(&mut self, color: RgbColor)
        ensures
            color_applied(*old(self), *final(self), color),
    {
        self.set_current_color(color);
    }

    /// Opens the picker on the selected field, remembering its color so that
    /// cancelling can put it back.
    pub fn open_color_picker(&mut self)
        ensures
            picker_opened(*old(self), *final(self)),
    {
        let color = self.current_color();
        self.original_color = Some(color);
        self.input_mode = InputMode::ColorPicker;
    }

    /// Closes the picker. Keeping the change records it for undo (when the
    /// color did change); cancelling puts the original color back.
    pub fn close_color_picker(&mut self, save: bool)
        ensures
            picker_closed(*old(self), *final(self), save),
    {
        if save {
            self.record_undo();
        } else if let Some(original) = self.original_color.take() {
            self.set_current_color(original);
        }
        self.original_color = None;
        self.input_mode = InputMode::Preview;
    }

    // ── Yank / paste / undo ──────────────────────────────────────────────────

    pub fn yank_color(&mut self)
        ensures
            ({
                let c = old(self).selected.value_in(old(self).theme.palette);
                &&& final(self).message matches Some(m) && m@ == "Yanked "@ + hex_string(c)
                &&& *final(self) == (App {
                    clipboard_color: Some(c),
                    message: final(self).message,
                    ..*old(self)
                })
            }),
    {
        let c = self.current_color();
        self.clipboard_color = Some(c);
        let mut m = String::from_str("Yanked ");
        m.append(c.to_hex().as_str());
        self.message = Some(m);
    }

    /// Pastes the yanked color into the selected field, recording the color it
    /// replaces for undo.
    pub fn paste_color(&mut self)
        ensures
            pasted(*old(self), *final(self)),
    {
        if let Some(c) = self.clipboard_color {
            let before = self.current_color();
            self.push_undo(self.selected, before);
            self.set_current_color(c);
            let mut m = String::from_str("Pasted ");
            m.append(c.to_hex().as_str());
            self.message = Some(m);
        } else {
            self.message = message("Nothing to paste");
        }
    }

    fn push_undo(&mut self, field: PaletteField, color: RgbColor)
        ensures
            final(self).undo_stack@ == undo_pushed(old(self).undo_stack@, (field, color)),
            *final(self) == (App { undo_stack: final(self).undo_stack, ..*old(self) }),
    {
        self.undo_stack.push((field, color));
        if self.undo_stack.len() > 64 {
            self.undo_stack.remove(0);
            assert(self.undo_stack@ =~= undo_pushed(old(self).undo_stack@, (field, color)));
        }
    }

    fn record_undo(&mut self)
        ensures
            ({
                let cur = old(self).selected.value_in(old(self).theme.palette);
                let stack = match old(self).original_color {
                    Some(o) => if cur != o {
                        undo_pushed(old(self).undo_stack@, (old(self).selected, o))
                    } else {
                        old(self).undo_stack@
                    },
                    None => old(self).undo_stack@,
                };
                &&& final(self).undo_stack@ == stack
                &&& *final(self) == (App { undo_stack: final(self).undo_stack, ..*old(self) })
            }),
    {
        if let Some(original) = self.original_color {
            if self.current_color() != original {
                let field = self.selected;
                self.push_undo(field, original);
            }
        }
    }

    /// Restores the most recently replaced color, selecting its field.
    pub fn undo_color(&mut self)
        ensures
            undone(*old(self), *final(self)),
    {
        if self.undo_stack.len() == 0 {
            self.message = message("Nothing to undo");
            return;
        }
        if let Some((field, color)) = self.undo_stack.pop() {
            assert(self.undo_stack@ =~= old(self).undo_stack@.drop_last());
            self.selected = field;
            self.set_current_color(color);
            let remaining = self.undo_stack.len();
            if remaining == 0 {
                self.message = message("Undone");
            } else {
                let mut m = String::from_str("Undone (");
                push_decimal_usize(&mut m, remaining);
                m.append(" more)");
                assert(m@ =~= undo_report(remaining as nat));
                self.message = Some(m);
            }
        } else {
            self.message = message("Nothing to undo");
        }
    }

    // ── Rename / delete saved themes ─────────────────────────────────────────

    /// Starts renaming the highlighted saved theme, its name in the name field.
    pub fn begin_rename_selected_theme(&mut self)
        ensures
            ({
                let es = old(self).loadable_themes@;
                let i = old(self).selected_theme_index as int;
                if i >= es.len() || es[i] is Builtin {
                    &&& final(self).message matches Some(m) && m@ == "Cannot rename built-in themes"@
                    &&& *final(self) == (App { message: final(self).message, ..*old(self) })
                } else {
                    &&& final(self).theme_name_input@ == es[i].name_spec()
                    &&& *final(self) == (App {
                        loader_action_index: old(self).selected_theme_index,
                        theme_name_input: final(self).theme_name_input,
                        input_mode: InputMode::ThemeLoadRename,
                        ..*old(self)
                    })
                }
            }),
    {
        if self.selected_theme_index >= self.loadable_themes.len()
            || self.loadable_themes[self.selected_theme_index].is_builtin() {
            self.message = message("Cannot rename built-in themes");
            return;
        }
        self.loader_action_index = self.selected_theme_index;
        self.theme_name_input = String::from_str(self.loadable_themes[self.selected_theme_index].name());
        self.input_mode = InputMode::ThemeLoadRename;
    }

    /// Settles a rename: returns the saved theme's current name (empty when the
    /// entry is gone) and its new, normalized name, for the directory to be
    /// renamed; then call `finish_rename_theme`. A name with no usable
    /// characters is refused instead.
    pub fn commit_rename_theme(&mut self) -> (names: Option<(String, String)>)
        ensures
            ({
                let n = normalized_name(old(self).theme_name_input@);
                if n.len() == 0 {
                    &&& names is None
                    &&& final(self).message matches Some(m) && m@ == "✗ Invalid name"@
                    &&& *final(self) == (App { message: final(self).message, ..*old(self) })
                } else {
                    &&& names matches Some((from, to)) && from@ == entry_name_at(
                        old(self).loadable_themes@,
                        old(self).loader_action_index as int,
                    ) && to@ == n
                    &&& *final(self) == *old(self)
                }
            }),
    {
        let new_name = normalize_theme_name(self.theme_name_input.as_str());
        if new_name.as_str().is_empty() {
            self.message = message("✗ Invalid name");
            return None;
        }
        let old_name = if self.loader_action_index < self.loadable_themes.len() {
            String::from_str(self.loadable_themes[self.loader_action_index].name())
        } else {
            String::new()
        };
        Some((old_name, new_name))
    }

    /// Completes a rename: reports its outcome, rebuilds the loader lists from
    /// a fresh read of the saved themes, and returns to the loader.
    pub fn finish_rename_theme(
        &mut self,
        renamed: Result<(), ConfigError>,
        listed: Result<Vec<SavedTheme>, ConfigError>,
    )
        ensures
            lists_rebuilt(
                *old(self),
                *final(self),
                listed,
                outcome_report(
                    renamed,
                    "✓ Renamed to "@ + normalized_name(old(self).theme_name_input@),
                ),
            ),
            *final(self) == (App {
                saved_themes: final(self).saved_themes,
                all_themes: final(self).all_themes,
                loadable_themes: final(self).loadable_themes,
                selected_theme_index: final(self).selected_theme_index,
                message: final(self).message,
                input_mode: InputMode::ThemeLoad,
                ..*old(self)
            }),
    {
        let new_name = normalize_theme_name(self.theme_name_input.as_str());
        match renamed {
            Ok(()) => {
                let mut m = String::from_str("✓ Renamed to ");
                m.append(new_name.as_str());
                self.message = Some(m);
            },
            Err(e) => {
                let mut m = String::from_str("✗ ");
                m.append(e.message().as_str());
                self.message = Some(m);
            },
        }
        self.refresh_theme_list(listed);
        self.input_mode = InputMode::ThemeLoad;
    }

    /// Asks for confirmation before deleting the highlighted saved theme.
    pub fn begin_delete_selected_theme(&mut self)
        ensures
            ({
                let es = old(self).loadable_themes@;
                let i = old(self).selected_theme_index as int;
                if i >= es.len() || es[i] is Builtin {
                    &&& final(self).message matches Some(m) && m@ == "Cannot delete built-in themes"@
                    &&& *final(self) == (App { message: final(self).message, ..*old(self) })
                } else {
                    &&& final(self).message matches Some(m) && m@ == "Delete \""@ + es[i].name_spec()
                        + "\"? y = confirm, n = cancel"@
                    &&& *final(self) == (App {
                        loader_action_index: old(self).selected_theme_index,
                        message: final(self).message,
                        input_mode: InputMode::ThemeLoadDeleteConfirm,
                        ..*old(self)
                    })
                }
            }),
    {
        if self.selected_theme_index >= self.loadable_themes.len()
            || self.loadable_themes[self.selected_theme_index].is_builtin() {
            self.message = message("Cannot delete built-in themes");
            return;
        }
        self.loader_action_index = self.selected_theme_index;
        let mut m = String::from_str("Delete \"");
        m.append(self.loadable_themes[self.selected_theme_index].name());
        m.append("\"? y = confirm, n = cancel");
        self.message = Some(m);
        self.input_mode = InputMode::ThemeLoadDeleteConfirm;
    }

    /// The name of the saved theme a confirmed delete removes (empty when the
    /// entry is gone).
    pub fn theme_pending_delete(&self) -> (name: String)
        ensures
            name@ == entry_name_at(self.loadable_themes@, self.loader_action_index as int),
    {
        if self.loader_action_index < self.loadable_themes.len() {
            String::from_str(self.loadable_themes[self.loader_action_index].name())
        } else {
            String::new()
        }
    }

    /// Completes a delete of `theme_pending_delete()`: reports its outcome,
    /// rebuilds the loader lists from a fresh read of the saved themes, and
    /// returns to the loader with the highlight inside the list.
    pub fn confirm_delete_theme(
        &mut self,
        deleted: Result<(), ConfigError>,
        listed: Result<Vec<SavedTheme>, ConfigError>,
    )
        ensures
            lists_rebuilt(
                *old(self),
                *final(self),
                listed,
                outcome_report(
                    deleted,
                    "✓ Deleted \""@ + entry_name_at(
                        old(self).loadable_themes@,
                        old(self).loader_action_index as int,
                    ) + "\""@,
                ),
            ),
            *final(self) == (App {
                saved_themes: final(self).saved_themes,
                all_themes: final(self).all_themes,
                loadable_themes: final(self).loadable_themes,
                selected_theme_index: final(self).selected_theme_index,
                message: final(self).message,
                input_mode: InputMode::ThemeLoad,
                ..*old(self)
            }),
    {
        let name = self.theme_pending_delete();
        match deleted {
            Ok(()) => {
                let mut m = String::from_str("✓ Deleted \"");
                m.append(name.as_str());
                m.append("\"");
                self.message = Some(m);
            },
            Err(e) => {
                let mut m = String::from_str("✗ ");
                m.append(e.message().as_str());
                self.message = Some(m);
            },
        }
        self.refresh_theme_list(listed);
        let last = if self.loadable_themes.len() == 0 {
            0
        } else {
            self.loadable_themes.len() - 1
        };
        if self.selected_theme_index > last {
            self.selected_theme_index = last;
        }
        self.input_mode = InputMode::ThemeLoad;
    }

    // ── Self-update ──────────────────────────────────────────────────────────

    /// Starts a version check whose answer arrives on `rx`.
    pub fn start_update_check(&mut self, rx: std::sync::mpsc::Receiver<UpdateMsg>)
        ensures
            *final(self) == (App {
                update_status: UpdateStatus::Checking,
                update_rx: Some(rx),
                ..*old(self)
            }),
    {
        self.update_status = UpdateStatus::Checking;
        self.update_rx = Some(rx);
    }

    /// Starts installing an available release, whose outcome arrives on `rx`,
    /// and returns its tag for the download; in any other state says why not
    /// and returns `None`.
    pub fn start_self_update(&mut self, rx: std::sync::mpsc::Receiver<UpdateMsg>) -> (tag: Option<
        String,
    >)
        ensures
            match old(self).update_status {
                UpdateStatus::Available(t) => {
                    &&& tag == Some(t)
                    &&& *final(self) == (App {
                        update_status: UpdateStatus::Downloading,
                        update_rx: Some(rx),
                        message: None,
                        ..*old(self)
                    })
                },
                _ => {
                    &&& tag is None
                    &&& final(self).message matches Some(m) && m@ == update_refusal(
                        old(self).update_status,
                    )
                    &&& *final(self) == (App { message: final(self).message, ..*old(self) })
                },
            },
    {
        match &self.update_status {
            UpdateStatus::Available(t) => {
                let tag = t.clone();
                self.update_status = UpdateStatus::Downloading;
                self.update_rx = Some(rx);
                self.message = None;
                Some(tag)
            },
            UpdateStatus::Checking => {
                self.message = message("Still checking for updates");
                None
            },
            UpdateStatus::UpToDate | UpdateStatus::Idle => {
                self.message = message("No update available");
                None
            },
            UpdateStatus::Downloading => {
                self.message = message("Update already in progress");
                None
            },
            UpdateStatus::Done => {
                self.message = message("Update already installed; restart to apply");
                None
            },
            UpdateStatus::Failed(err) => {
                let mut m = String::from_str("✗ Update unavailable: ");
                m.append(err.as_str());
                self.message = Some(m);
                None
            },
        }
    }

    /// Takes in whatever the update worker has reported since the last poll.
    pub fn poll_update_channel(&mut self)
        ensures
            old(self).update_rx is None ==> *final(self) == *old(self),
            old(self).update_rx is Some ==> exists|poll: UpdatePoll| update_polled(*old(self), *final(self), poll),
    {
        let poll = match &self.update_rx {
            Some(rx) => try_receive(rx),
            None => return,
        };
        self.handle_update_poll(poll);
    }

    /// Applies one poll of the update channel: a message ends the wait and
    /// sets the status from it; a dropped worker ends the wait as a failure;
    /// nothing yet changes nothing.
    pub fn handle_update_poll(&mut self, poll: UpdatePoll)
        ensures
            update_polled(*old(self), *final(self), poll),
    {
        match poll {
            UpdatePoll::Received(msg) => {
                self.update_rx = None;
                self.message = None;
                match msg {
                    UpdateMsg::VersionChecked(Ok(Some(tag))) => {
                        self.update_status = UpdateStatus::Available(tag);
                    },
                    UpdateMsg::VersionChecked(Ok(None)) => {
                        self.update_status = UpdateStatus::UpToDate;
                    },
                    UpdateMsg::VersionChecked(Err(e)) => {
                        self.update_status = UpdateStatus::Failed(e);
                    },
                    UpdateMsg::UpdateComplete(Ok(())) => {
                        self.update_status = UpdateStatus::Done;
                        self.input_mode = InputMode::UpdateRestartConfirm;
                    },
                    UpdateMsg::UpdateComplete(Err(e)) => {
                        self.update_status = UpdateStatus::Failed(e);
                    },
                }
            },
            UpdatePoll::Disconnected => {
                self.update_rx = None;
                self.message = None;
                self.update_status = UpdateStatus::Failed(
                    String::from_str("update worker disconnected"),
                );
            },
            UpdatePoll::Empty => {},
        }
    }

    /// Keeps working on the old binary after an update was installed.
    pub fn defer_restart(&mut self)
        ensures
            *final(self) == (App {
                input_mode: InputMode::Preview,
                update_status: UpdateStatus::Idle,
                message: None,
                ..*old(self)
            }),
    {
        self.input_mode = InputMode::Preview;
        self.update_status = UpdateStatus::Idle;
        self.message = None;
    }

    /// Restarts into the installed update once the editor exits.
    pub fn confirm_restart(&mut self)
        ensures
            *final(self) == (App {
                restart_after_exit: true,
                input_mode: InputMode::Preview,
                ..*old(self)
            }),
    {
        self.restart_after_exit = true;
        self.input_mode = InputMode::Preview;
    }

    /// The swatches the loader shows for the theme called `name`.
    pub fn swatches_for(&self, name: &str) -> (r: Option<[RgbColor; 4]>)
        ensures
            r == swatches_named(self.theme_swatches@, name@),
    {
        let mut i: usize = self.theme_swatches.len();
        proof {
            assert(self.theme_swatches@.take(i as int) =~= self.theme_swatches@);
        }
        while i > 0
            invariant
                i <= self.theme_swatches.len(),
                swatches_named(self.theme_swatches@, name@) == swatches_named(
                    self.theme_swatches@.take(i as int),
                    name@,
                ),
            decreases i,
        {
            let ghost t = self.theme_swatches@.take(i as int);
            proof {
                assert(t.drop_last() =~= self.theme_swatches@.take(i - 1));
                assert(t.last() == self.theme_swatches@[i - 1]);
            }
            if str_equal(self.theme_swatches[i - 1].0.as_str(), name) {
                return Some(self.theme_swatches[i - 1].1);
            }
            i = i - 1;
        }
        None
    }
}

// ── Loader search, help and prompts ──────────────────────────────────────────

/// The loader after its search became `query`: the list narrowed to it and
/// the first match previewed.
pub open spec fn searched(before: App, after: App, query: Seq<char>, focused: bool) -> bool {
    let listed = App {
        theme_search_query: after.theme_search_query,
        search_focused: focused,
        loadable_themes: after.loadable_themes,
        selected_theme_index: 0,
        ..before
    };
    &&& after.theme_search_query@ == query
    &&& after.loadable_themes@ == visible_entries(before.all_themes@, before.theme_filter, query)
    &&& previewed(listed, after, 0)
}

impl App {
    fn search_changed(&mut self)
        ensures
            final(self).loadable_themes@ == visible_entries(
                old(self).all_themes@,
                old(self).theme_filter,
                old(self).theme_search_query@,
            ),
            previewed(
                App { loadable_themes: final(self).loadable_themes, selected_theme_index: 0, ..*old(self) },
                *final(self),
                0,
            ),
    {
        self.apply_filter_to_list();
        self.move_theme_selection_to(0);
    }

    /// Types a character into the loader's search (which then has the
    /// keys), narrowing the list and previewing its first theme.
    pub fn push_search_char(&mut self, c: char)
        ensures
            loader_browsed(*old(self), *final(self)),
            searched(*old(self), *final(self), old(self).theme_search_query@.push(c), true),
    {
        self.theme_search_query.push(c);
        self.search_focused = true;
        self.search_changed();
    }

    /// Deletes the search's last character, widening the list and
    /// previewing its first theme.
    pub fn pop_search_char(&mut self)
        ensures
            loader_browsed(*old(self), *final(self)),
            searched(
                *old(self),
                *final(self),
                if old(self).theme_search_query@.len() == 0 {
                    old(self).theme_search_query@
                } else {
                    old(self).theme_search_query@.drop_last()
                },
                old(self).search_focused,
            ),
    {
        self.theme_search_query.pop();
        self.search_changed();
    }

    /// Empties the search and gives the keys back to the list, which then
    /// shows every theme the filter lets through.
    pub fn clear_search(&mut self)
        ensures
            loader_browsed(*old(self), *final(self)),
            searched(*old(self), *final(self), Seq::empty(), false),
    {
        self.theme_search_query = String::new();
        self.search_focused = false;
        self.search_changed();
    }

    /// Gives the keys to the search.
    pub fn focus_search(&mut self)
        ensures
            loader_browsed(*old(self), *final(self)),
            *final(self) == (App { search_focused: true, ..*old(self) }),
    {
        self.search_focused = true;
    }

    /// Gives the keys back to the list.
    pub fn end_search(&mut self)
        ensures
            loader_browsed(*old(self), *final(self)),
            *final(self) == (App { search_focused: false, ..*old(self) }),
    {
        self.search_focused = false;
    }

    /// Opens the help at its top.
    pub fn open_help(&mut self)
        ensures
            *final(self) == (App { help_scroll: 0, input_mode: InputMode::Help, ..*old(self) }),
    {
        self.help_scroll = 0;
        self.input_mode = InputMode::Help;
    }

    pub fn close_help(&mut self)
        ensures
            *final(self) == (App { input_mode: InputMode::Preview, ..*old(self) }),
    {
        self.input_mode = InputMode::Preview;
    }

    /// Scrolls the help up by `rows`, stopping at the top.
    pub fn scroll_help_up(&mut self, rows: u16)
        ensures
            final(self).help_scroll == (if old(self).help_scroll >= rows {
                old(self).help_scroll - rows
            } else {
                0
            }),
            *final(self) == (App { help_scroll: final(self).help_scroll, ..*old(self) }),
    {
        self.help_scroll = self.help_scroll.saturating_sub(rows);
    }

    /// Scrolls the help down by `rows`; drawing keeps it within the list.
    pub fn scroll_help_down(&mut self, rows: u16)
        ensures
            final(self).help_scroll == (if old(self).help_scroll + rows <= u16::MAX {
                old(self).help_scroll + rows
            } else {
                u16::MAX as int
            }),
            *final(self) == (App { help_scroll: final(self).help_scroll, ..*old(self) }),
    {
        self.help_scroll = self.help_scroll.saturating_add(rows);
    }

    /// Scrolls the help to its top or (`bottom`) past its end, which drawing
    /// turns into the last page.
    pub fn jump_help(&mut self, bottom: bool)
        ensures
            final(self).help_scroll == (if bottom {
                u16::MAX
            } else {
                0
            }),
            *final(self) == (App { help_scroll: final(self).help_scroll, ..*old(self) }),
    {
        self.help_scroll = if bottom {
            u16::MAX
        } else {
            0
        };
    }

    /// Leaves the name prompt without saving: the typed name goes back to
    /// the theme's.
    pub fn leave_name_prompt(&mut self)
        ensures
            final(self).theme_name_input@ == old(self).theme.name@,
            *final(self) == (App {
                theme_name_input: final(self).theme_name_input,
                input_mode: InputMode::Preview,
                message: None,
                ..*old(self)
            }),
    {
        self.sync_theme_name_input();
        self.input_mode = InputMode::Preview;
        self.message = None;
    }

    /// Returns from a rename or delete prompt to the loader.
    pub fn back_to_loader(&mut self)
        ensures
            *final(self) == (App { input_mode: InputMode::ThemeLoad, message: None, ..*old(self) }),
    {
        self.input_mode = InputMode::ThemeLoad;
        self.message = None;
    }
}

} // verus!
