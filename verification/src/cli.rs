//! The command line: which mode a run starts in, and what a headless export
//! of `export <name> [preset]` writes.
use vstd::prelude::*;
use crate::text::str_equal;
use crate::theme::presets::{builtin_presets, builtins, get, preset_named};
use crate::theme::{default_palette, Theme, ThemePalette};
use crate::ui::state::{normalize_theme_name, normalized_name};

verus! {

/// What a run of the program does.
#[derive(Debug, Clone, Copy, PartialEq, Eq, Structural)]
pub enum Invocation {
    /// `export <name> [preset]`: write a theme directory without the editor.
    Export,
    /// `-h` or `--help`: print the usage.
    Help,
    /// Anything else: open the editor.
    Editor,
}

/// The arguments' texts.
pub open spec fn arg_texts(args: Seq<String>) -> Seq<Seq<char>> {
    args.map_values(|s: String| s@)
}

/// The mode chosen by the first argument.
pub open spec fn invocation_spec(args: Seq<Seq<char>>) -> Invocation {
    if args.len() > 0 && args[0] == "export"@ {
        Invocation::Export
    } else if args.len() > 0 && (args[0] == "-h"@ || args[0] == "--help"@) {
        Invocation::Help
    } else {
        Invocation::Editor
    }
}

/// The mode a run with these arguments (the program name left out) starts in.
pub fn invocation(args: &[String]) -> (r: Invocation)
    ensures
        r == invocation_spec(arg_texts(args@)),
{
    if args.len() == 0 {
        return Invocation::Editor;
    }
    let first = args[0].as_str();
    if str_equal(first, "export") {
        Invocation::Export
    } else if str_equal(first, "-h") || str_equal(first, "--help") {
        Invocation::Help
    } else {
        Invocation::Editor
    }
}

/// `names` separated by `, `.
pub open spec fn joined(names: Seq<Seq<char>>) -> Seq<char>
    decreases names.len(),
{
    if names.len() == 0 {
        Seq::empty()
    } else if names.len() == 1 {
        names[0]
    } else {
        joined(names.drop_last()) + ", "@ + names.last()
    }
}

/// The refusal of a preset name that no built-in preset has, listing those
/// that exist.
pub open spec fn unknown_preset_text(name: Seq<char>) -> Seq<char> {
    "unknown preset '"@ + name + "' (available: "@ + joined(
        builtin_presets().map_values(|e: (Seq<char>, ThemePalette)| e.0),
    ) + ")"@
}

fn unknown_preset(name: &str) -> (s: String)
    ensures
        s@ == unknown_preset_text(name@),
{
    let all = builtins();
    let ghost names = builtin_presets().map_values(|e: (Seq<char>, ThemePalette)| e.0);
    let mut list = String::new();
    let mut i: usize = 0;
    while i < all.len()
        invariant
            all@.map_values(|e: (&'static str, ThemePalette)| (e.0@, e.1)) == builtin_presets(),
            names == builtin_presets().map_values(|e: (Seq<char>, ThemePalette)| e.0),
            i <= all.len(),
            all@.len() == names.len(),
            list@ == joined(names.take(i as int)),
        decreases all.len() - i,
    {
        let (n, _) = all[i];
        assert(all@.map_values(|e: (&'static str, ThemePalette)| (e.0@, e.1))[i as int].0 == n@);
        if i > 0 {
            list.append(", ");
        }
        list.append(n);
        assert(names.take(i + 1).drop_last() =~= names.take(i as int));
        assert(names.take(i + 1).last() == n@);
        if i == 0 {
            assert(list@ =~= joined(names.take(i + 1)));
        }
        i = i + 1;
    }
    assert(names.take(all.len() as int) =~= names);
    let mut s = String::from_str("unknown preset '");
    s.append(name);
    s.append("' (available: ");
    s.append(list.as_str());
    s.append(")");
    s
}

/// What `export <name> [preset]` comes to.
pub enum ExportPlan {
    /// No name was given: print the usage.
    Usage,
    /// The name has no letters or digits to make a directory name from.
    EmptyName,
    /// No built-in preset has the given name; the refusal to print.
    UnknownPreset(String),
    /// Write this theme: the normalized name with the preset's palette, or
    /// the default palette when no preset was named.
    Write(Theme),
}

/// What the export arguments (the name, then optionally a preset) come to:
/// the usage when there is no name, a refusal of a name with nothing usable
/// in it, then of an unknown preset; otherwise the theme to write.
pub fn export_plan(args: &[String]) -> (plan: ExportPlan)
    ensures
        ({
            let a = arg_texts(args@);
            match plan {
                ExportPlan::Usage => a.len() == 0,
                ExportPlan::EmptyName => a.len() > 0 && normalized_name(a[0]).len() == 0,
                ExportPlan::UnknownPreset(m) => {
                    &&& a.len() > 1
                    &&& normalized_name(a[0]).len() > 0
                    &&& preset_named(a[1]) is None
                    &&& m@ == unknown_preset_text(a[1])
                },
                ExportPlan::Write(t) => {
                    &&& a.len() > 0
                    &&& normalized_name(a[0]).len() > 0
                    &&& t.name@ == normalized_name(a[0])
                    &&& if a.len() > 1 {
                        preset_named(a[1]) == Some(t.palette)
                    } else {
                        t.palette == default_palette()
                    }
                },
            }
        }),
{
    if args.len() == 0 {
        return ExportPlan::Usage;
    }
    let slug = normalize_theme_name(args[0].as_str());
    if slug.as_str().is_empty() {
        return ExportPlan::EmptyName;
    }
    let palette = if args.len() > 1 {
        match get(args[1].as_str()) {
            Some(p) => p,
            None => return ExportPlan::UnknownPreset(unknown_preset(args[1].as_str())),
        }
    } else {
        ThemePalette::default()
    };
    ExportPlan::Write(Theme::new(slug.as_str(), palette))
}

} // verus!
