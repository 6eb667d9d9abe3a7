//! The color picker's controls: a focus that moves over the three channel
//! sliders and the hex field, nudges of the focused channel, the switch
//! between RGB sliders and the HSL field, and typing a hex color after `#`.
use vstd::prelude::*;
use vstd::string::StringSliceAdditionalSpecFns;
use crate::theme::{clamp_to_u8, parse_hex_color, rgb, RgbColor};
use crate::ui::state::{color_applied, picker_opened, App};

verus! {

/// A hex digit, as typed into the hex line.
pub open spec fn is_hex_digit(c: char) -> bool {
    ('0' <= c && c <= '9') || ('a' <= c && c <= 'f') || ('A' <= c && c <= 'F')
}

/// The control the picker's keys act on: the three sliders (red, green and
/// blue in RGB mode; hue, saturation and lightness in HSL mode), then the
/// hex field.
#[derive(Debug, Clone, Copy, PartialEq, Eq, Structural)]
pub enum Control {
    First,
    Second,
    Third,
    Hex,
}

/// How the picker shows a color.
#[derive(Debug, Clone, Copy, PartialEq, Eq, Structural)]
pub enum PickerMode {
    /// Red, green and blue sliders.
    Rgb,
    /// A hue/saturation field with a lightness slider.
    Hsl,
}

/// The control after `c` in Tab order, wrapping around.
pub open spec fn next_control(c: Control) -> Control {
    match c {
        Control::First => Control::Second,
        Control::Second => Control::Third,
        Control::Third => Control::Hex,
        Control::Hex => Control::First,
    }
}

/// The control before `c` in Tab order, wrapping around.
pub open spec fn prev_control(c: Control) -> Control {
    match c {
        Control::First => Control::Hex,
        Control::Second => Control::First,
        Control::Third => Control::Second,
        Control::Hex => Control::Third,
    }
}

/// The picker's own state: the focused control, the mode, and the hex line
/// while one is being typed.
#[derive(Debug)]
pub struct Picker {
    hex_input: Option<String>,
    focus: Control,
    mode: PickerMode,
}

/// One edit made in the open picker: a color written into the selected
/// field, or only a message (a hex line that is not a color).
pub open spec fn picker_edited(before: App, after: App) -> bool {
    ||| exists|c: RgbColor| #[trigger] color_applied(before, after, c)
    ||| after == (App { message: after.message, ..before })
}

/// A hex line: `#` and up to six hex digits.
pub open spec fn hex_line_ok(line: Seq<char>) -> bool {
    &&& 1 <= line.len() <= 7
    &&& line[0] == '#'
    &&& forall|i: int| 1 <= i < line.len() ==> is_hex_digit(#[trigger] line[i])
}

/// `c` with the channel under `focus` moved by `amount`, clamped to
/// `0..=255`; the hex field has no channel, so it leaves `c` as it is.
pub open spec fn nudged(c: RgbColor, focus: Control, amount: i16) -> RgbColor {
    match focus {
        Control::First => rgb(clamp_to_u8(c.r + amount), c.g, c.b),
        Control::Second => rgb(c.r, clamp_to_u8(c.g + amount), c.b),
        Control::Third => rgb(c.r, c.g, clamp_to_u8(c.b + amount)),
        Control::Hex => c,
    }
}

fn nudge_channel(v: u8, amount: i16) -> (r: u8)
    requires
        -255 <= amount <= 255,
    ensures
        r == clamp_to_u8(v + amount),
{
    let sum: i16 = v as i16 + amount;
    if sum < 0 {
        0
    } else if sum > 255 {
        255
    } else {
        sum as u8
    }
}

impl Picker {
    #[verifier::type_invariant]
    spec fn well_formed(self) -> bool {
        match self.hex_input {
            Some(line) => hex_line_ok(line@),
            None => true,
        }
    }

    /// The hex line being typed, if any.
    pub closed spec fn hex_spec(self) -> Option<Seq<char>> {
        match self.hex_input {
            Some(line) => Some(line@),
            None => None,
        }
    }

    /// The focused control.
    pub closed spec fn focus_spec(self) -> Control {
        self.focus
    }

    /// The picker's mode.
    pub closed spec fn mode_spec(self) -> PickerMode {
        self.mode
    }

    /// A picker in RGB mode, focused on the first slider, with no hex line.
    pub fn new() -> (p: Self)
        ensures
            p.hex_spec() is None,
            p.focus_spec() == Control::First,
            p.mode_spec() == PickerMode::Rgb,
    {
        Picker { hex_input: None, focus: Control::First, mode: PickerMode::Rgb }
    }

    /// The focused control.
    pub fn focus(&self) -> (c: Control)
        ensures
            c == self.focus_spec(),
    {
        self.focus
    }

    /// The picker's mode.
    pub fn mode(&self) -> (m: PickerMode)
        ensures
            m == self.mode_spec(),
    {
        self.mode
    }

    /// Moves the focus to the next control (Tab), wrapping around.
    pub fn focus_next(&mut self)
        ensures
            final(self).focus_spec() == next_control(old(self).focus_spec()),
            final(self).mode_spec() == old(self).mode_spec(),
            final(self).hex_spec() == old(self).hex_spec(),
    {
        proof {
            use_type_invariant(&*self);
        }
        self.focus = match self.focus {
            Control::First => Control::Second,
            Control::Second => Control::Third,
            Control::Third => Control::Hex,
            Control::Hex => Control::First,
        };
    }

    /// Moves the focus to the previous control (Shift+Tab), wrapping around.
    pub fn focus_prev(&mut self)
        ensures
            final(self).focus_spec() == prev_control(old(self).focus_spec()),
            final(self).mode_spec() == old(self).mode_spec(),
            final(self).hex_spec() == old(self).hex_spec(),
    {
        proof {
            use_type_invariant(&*self);
        }
        self.focus = match self.focus {
            Control::First => Control::Hex,
            Control::Second => Control::First,
            Control::Third => Control::Second,
            Control::Hex => Control::Third,
        };
    }

    /// Switches between the RGB sliders and the HSL field.
    pub fn toggle_mode(&mut self)
        ensures
            final(self).mode_spec() == (if old(self).mode_spec() == PickerMode::Rgb {
                PickerMode::Hsl
            } else {
                PickerMode::Rgb
            }),
            final(self).focus_spec() == old(self).focus_spec(),
            final(self).hex_spec() == old(self).hex_spec(),
    {
        proof {
            use_type_invariant(&*self);
        }
        self.mode = match self.mode {
            PickerMode::Rgb => PickerMode::Hsl,
            PickerMode::Hsl => PickerMode::Rgb,
        };
    }

    /// The hex line being typed, if any.
    pub fn hex_line(&self) -> (line: Option<&str>)
        ensures
            match self.hex_spec() {
                Some(l) => line matches Some(s) && s@ == l,
                None => line is None,
            },
    {
        match &self.hex_input {
            Some(line) => Some(line.as_str()),
            None => None,
        }
    }

    /// Opens the picker on the editor's selected field, focused on the first
    /// slider and in the mode it was last left in.
    pub fn open(&mut self, app: &mut App)
        ensures
            final(self).hex_spec() is None,
            final(self).focus_spec() == Control::First,
            final(self).mode_spec() == old(self).mode_spec(),
            picker_opened(*old(app), *final(app)),
    {
        self.hex_input = None;
        self.focus = Control::First;
        app.open_color_picker();
    }

    /// Moves the focused channel slider of the color being edited by
    /// `amount`, clamped; with the hex field focused nothing changes.
    pub fn nudge(&self, app: &mut App, amount: i16)
        requires
            -255 <= amount <= 255,
        ensures
            picker_edited(*old(app), *final(app)),
            self.focus_spec() == Control::Hex ==> *final(app) == *old(app),
            self.focus_spec() != Control::Hex ==> color_applied(
                *old(app),
                *final(app),
                nudged(old(app).selected.value_in(old(app).theme.palette), self.focus_spec(), amount),
            ),
    {
        let c = app.current_color();
        let color = match self.focus {
            Control::First => RgbColor::new(nudge_channel(c.r, amount), c.g, c.b),
            Control::Second => RgbColor::new(c.r, nudge_channel(c.g, amount), c.b),
            Control::Third => RgbColor::new(c.r, c.g, nudge_channel(c.b, amount)),
            Control::Hex => return,
        };
        app.apply_current_color(color);
    }

    /// Starts a hex line, focusing the hex field.
    pub fn begin_hex(&mut self)
        ensures
            final(self).hex_spec() == Some("#"@),
            final(self).focus_spec() == Control::Hex,
            final(self).mode_spec() == old(self).mode_spec(),
    {
        proof {
            reveal_strlit("#");
        }
        self.hex_input = Some(String::from_str("#"));
        self.focus = Control::Hex;
    }

    /// Takes a typed character into the hex line: a hex digit, while the
    /// line holds fewer than six.
    pub fn push_hex(&mut self, c: char)
        ensures
            final(self).focus_spec() == old(self).focus_spec(),
            final(self).mode_spec() == old(self).mode_spec(),
            final(self).hex_spec() == (match old(self).hex_spec() {
                Some(l) => Some(if is_hex_digit(c) && l.len() < 7 {
                    l.push(c)
                } else {
                    l
                }),
                None => None,
            }),
    {
        proof {
            use_type_invariant(&*self);
        }
        let digit = ('0' <= c && c <= '9') || ('a' <= c && c <= 'f') || ('A' <= c && c <= 'F');
        let taken = match &self.hex_input {
            Some(line) => digit && line.as_str().unicode_len() < 7,
            None => false,
        };
        if taken {
            let mut line = match &self.hex_input {
                Some(line) => line.clone(),
                None => String::new(),
            };
            line.push(c);
            assert(hex_line_ok(line@));
            self.hex_input = Some(line);
        }
    }

    /// Deletes the hex line's last digit, keeping the `#`.
    pub fn pop_hex(&mut self)
        ensures
            final(self).focus_spec() == old(self).focus_spec(),
            final(self).mode_spec() == old(self).mode_spec(),
            final(self).hex_spec() == (match old(self).hex_spec() {
                Some(l) => Some(if l.len() > 1 {
                    l.drop_last()
                } else {
                    l
                }),
                None => None,
            }),
    {
        proof {
            use_type_invariant(&*self);
        }
        let shorten = match &self.hex_input {
            Some(line) => line.as_str().unicode_len() > 1,
            None => false,
        };
        if shorten {
            let mut line = match &self.hex_input {
                Some(line) => line.clone(),
                None => String::new(),
            };
            line.pop();
            assert(hex_line_ok(line@));
            self.hex_input = Some(line);
        }
    }

    /// Ends hex entry without using the line.
    pub fn cancel_hex(&mut self)
        ensures
            final(self).focus_spec() == old(self).focus_spec(),
            final(self).mode_spec() == old(self).mode_spec(),
            final(self).hex_spec() is None,
    {
        self.hex_input = None;
    }

    /// Ends hex entry, writing the typed color into the field when the line
    /// is a full `#rrggbb`, or saying it is not a color.
    pub fn commit_hex(&mut self, app: &mut App)
        ensures
            picker_edited(*old(app), *final(app)),
            final(self).focus_spec() == old(self).focus_spec(),
            final(self).mode_spec() == old(self).mode_spec(),
            final(self).hex_spec() is None,
            match old(self).hex_spec() {
                None => *final(app) == *old(app),
                Some(l) => match parse_hex_color(l.map_values(|c: char| c as u8)) {
                    Some(color) => color_applied(*old(app), *final(app), color),
                    None => {
                        &&& *final(app) == (App { message: final(app).message, ..*old(app) })
                        &&& final(app).message matches Some(m) && m@ == "✗ Not a color: "@ + l
                    },
                },
            },
    {
        proof {
            use_type_invariant(&*self);
        }
        let line = match &self.hex_input {
            Some(line) => line.clone(),
            None => {
                return;
            },
        };
        self.hex_input = None;
        let text = line.as_str();
        proof {
            assert(vstd::utf8::is_ascii_chars(text@)) by {
                assert forall|i: int| 0 <= i < text@.len() implies '\0' <= #[trigger] text@[i] <= '\u{7f}' by {
                    if i > 0 {
                        assert(is_hex_digit(line@[i]));
                    }
                }
            }
            vstd::string::is_ascii_spec_bytes(text);
            assert(text.spec_bytes() =~= line@.map_values(|c: char| c as u8));
        }
        match RgbColor::from_hex(text) {
            Some(color) => app.apply_current_color(color),
            None => {
                let mut m = String::from_str("✗ Not a color: ");
                m.append(text);
                app.message = Some(m);
            },
        }
    }
}

} // verus!
