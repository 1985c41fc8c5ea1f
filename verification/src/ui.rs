//! The decisions of the prompt box: what a key press does, where the box
//! stands on the screen, and how its settings turn into what is drawn.

use vstd::prelude::*;
use vstd::utf8::encode_utf8;

use crate::config::ui_config::{lemma_defaults_fill_all, lemma_ui_view_fields, UiConfig};
use crate::config::{layer_or_empty, station_ui, ConfigView};
use crate::config::station::StationView;
use crate::config::utils::{hex_color, hex_color_cuttable, hex_color_readable, parse_hex_color, Rgb};

verus! {

/// The key of a key event, as far as the prompt tells keys apart.
#[derive(Debug, Clone, Copy, PartialEq, Eq, Structural)]
pub enum Key {
    Char(char),
    Enter,
    Esc,
    Other,
}

/// A key event: the key, whether Control was held, and whether the event is a
/// press (as opposed to a repeat or a release).
#[derive(Debug, Clone, Copy, PartialEq, Eq, Structural)]
pub struct KeyInput {
    pub key: Key,
    pub ctrl: bool,
    pub pressed: bool,
}

/// What the prompt does with a key event.
#[derive(Debug, Clone, Copy, PartialEq, Eq, Structural)]
pub enum Action {
    /// Nothing: the event is not a press.
    Ignore,
    /// Close the prompt without running anything.
    Quit,
    /// Close the prompt and run the station with the text typed.
    Submit,
    MoveBackward,
    MoveForward,
    /// Insert a line break (multiline mode only).
    LineBreak,
    MoveDown,
    MoveUp,
    /// Hand the event to the editor's own key handling.
    Edit,
}

/// The bindings of a pressed key.
pub open spec fn bound_action(key: Key, ctrl: bool, multiline: bool) -> Action {
    if ctrl {
        match key {
            Key::Char('c') => Action::Quit,
            Key::Char('h') => Action::MoveBackward,
            Key::Char('l') => Action::MoveForward,
            Key::Enter => if multiline {
                Action::LineBreak
            } else {
                Action::Edit
            },
            Key::Char('j') => if multiline {
                Action::MoveDown
            } else {
                Action::Edit
            },
            Key::Char('k') => if multiline {
                Action::MoveUp
            } else {
                Action::Edit
            },
            _ => Action::Edit,
        }
    } else {
        match key {
            Key::Esc => Action::Quit,
            Key::Enter => Action::Submit,
            _ => Action::Edit,
        }
    }
}

/// What the prompt does with `input`: events that are not presses are
/// ignored; Esc and Ctrl+C quit; Enter submits; Ctrl+H and Ctrl+L move the
/// cursor; in multiline mode Ctrl+Enter breaks the line and Ctrl+J / Ctrl+K
/// move down / up; every other key goes to the editor.
pub fn key_action(input: &KeyInput, multiline: bool) -> (action: Action)
    ensures
        !input.pressed ==> action == Action::Ignore,
        input.pressed ==> action == bound_action(input.key, input.ctrl, multiline),
{
    if !input.pressed {
        return Action::Ignore;
    }
    if input.ctrl {
        match input.key {
            Key::Char('c') => Action::Quit,
            Key::Char('h') => Action::MoveBackward,
            Key::Char('l') => Action::MoveForward,
            Key::Enter if multiline => Action::LineBreak,
            Key::Char('j') if multiline => Action::MoveDown,
            Key::Char('k') if multiline => Action::MoveUp,
            _ => Action::Edit,
        }
    } else {
        match input.key {
            Key::Esc => Action::Quit,
            Key::Enter => Action::Submit,
            _ => Action::Edit,
        }
    }
}

/// In single-line mode no key press can add a line or move between lines, and
/// whatever the mode, Enter without Control submits and Esc quits.
pub proof fn lemma_single_line_stays_single(input: KeyInput)
    ensures
        ({
            let a = bound_action(input.key, input.ctrl, false);
            a != Action::LineBreak && a != Action::MoveDown && a != Action::MoveUp
        }),
        forall|m: bool| #[trigger] bound_action(Key::Enter, false, m) == Action::Submit,
        forall|m: bool| #[trigger] bound_action(Key::Esc, false, m) == Action::Quit,
        forall|m: bool| #[trigger] bound_action(Key::Char('c'), true, m) == Action::Quit,
{
}

/// Only these key presses do something other than edit the input: Enter and
/// Esc without Control; Control with `c`, `h` or `l`; and, in multiline mode,
/// Control with Enter, `j` or `k`. Every other press goes to the editor; in
/// particular every character typed without Control is typed into the input.
pub proof fn lemma_keys_that_do_not_edit(key: Key, ctrl: bool, multiline: bool)
    ensures
        forall|c: char| #[trigger] bound_action(Key::Char(c), false, multiline) == Action::Edit,
        bound_action(Key::Other, ctrl, multiline) == Action::Edit,
        (bound_action(key, ctrl, multiline) != Action::Edit) <==> ((!ctrl && (key == Key::Enter
            || key == Key::Esc)) || (ctrl && (key == Key::Char('c') || key == Key::Char('h')
            || key == Key::Char('l'))) || (ctrl && multiline && (key == Key::Enter || key
            == Key::Char('j') || key == Key::Char('k')))),
        bound_action(Key::Char('h'), true, multiline) == Action::MoveBackward,
        bound_action(Key::Char('l'), true, multiline) == Action::MoveForward,
        bound_action(Key::Enter, true, true) == Action::LineBreak,
        bound_action(Key::Char('j'), true, true) == Action::MoveDown,
        bound_action(Key::Char('k'), true, true) == Action::MoveUp,
        bound_action(key, ctrl, multiline) != Action::Ignore,
{
}

/// A rectangle of terminal cells.
#[derive(Debug, Clone, Copy, PartialEq, Eq, Structural)]
pub struct Area {
    pub x: u16,
    pub y: u16,
    pub width: u16,
    pub height: u16,
}

pub open spec fn min_u16(a: u16, b: u16) -> u16 {
    if a <= b {
        a
    } else {
        b
    }
}

/// The box can be centered in `area` without a coordinate leaving `u16`.
pub open spec fn centering_fits(max_width: u16, max_height: u16, area: Area) -> bool {
    &&& area.x + (area.width - min_u16(max_width, area.width)) / 2 <= u16::MAX
    &&& area.y + (area.height - min_u16(max_height, area.height)) / 2 <= u16::MAX
}

/// The largest box of at most `max_width` by `max_height` cells that fits in
/// `area`, centered in it (an odd margin leaves the extra cell on the right
/// or at the bottom).
pub fn constrained_centered(max_width: u16, max_height: u16, area: Area) -> (r: Area)
    requires
        centering_fits(max_width, max_height, area),
    ensures
        r.width == min_u16(max_width, area.width),
        r.height == min_u16(max_height, area.height),
        r.x == area.x + (area.width - r.width) / 2,
        r.y == area.y + (area.height - r.height) / 2,
{
    let width = if max_width <= area.width {
        max_width
    } else {
        area.width
    };
    let height = if max_height <= area.height {
        max_height
    } else {
        area.height
    };
    Area {
        x: area.x + (area.width - width) / 2,
        y: area.y + (area.height - height) / 2,
        width,
        height,
    }
}

/// The centered box lies inside the area, is no larger than asked, and its
/// margins on opposite sides differ by at most one cell.
pub proof fn lemma_centered_box_inside(max_width: u16, max_height: u16, area: Area, r: Area)
    requires
        r.width == min_u16(max_width, area.width),
        r.height == min_u16(max_height, area.height),
        r.x == area.x + (area.width - r.width) / 2,
        r.y == area.y + (area.height - r.height) / 2,
    ensures
        area.x <= r.x,
        r.x + r.width <= area.x + area.width,
        area.y <= r.y,
        r.y + r.height <= area.y + area.height,
        r.width <= max_width,
        r.height <= max_height,
        0 <= (area.x + area.width - (r.x + r.width)) - (r.x - area.x) <= 1,
        0 <= (area.y + area.height - (r.y + r.height)) - (r.y - area.y) <= 1,
{
}

/// The display width, in terminal columns, of a string, as the
/// `unicode-width` crate measures it.
pub uninterp spec fn display_width(s: Seq<char>) -> usize;

/// Calls `unicode_width::UnicodeWidthStr::width`, which measures the columns a
/// string takes on a terminal. Claimed: the result depends on the string's
/// characters alone, and an empty string is zero columns wide.
#[verifier::external_body]
fn text_width(s: &str) -> (w: usize)
    ensures
        w == display_width(s@),
        s@.len() == 0 ==> w == 0,
{
    unicode_width::UnicodeWidthStr::width(s)
}

/// `x` cut to its low sixteen bits.
fn low_u16(x: usize) -> (r: u16)
    ensures
        r == x % 0x10000,
{
    assert((x as u16) == (x % 0x10000) as u16) by (bit_vector);
    x as u16
}

/// A size setting as a cell count (see `cell_count`).
fn cells(v: Option<usize>) -> (c: u16)
    ensures
        c == cell_count(v),
{
    match v {
        Some(n) => if n <= 0xffff {
            n as u16
        } else {
            u16::MAX
        },
        None => u16::MAX,
    }
}

/// What is drawn for a prompt box, every setting resolved.
#[derive(Debug, PartialEq, Eq)]
pub struct Theme {
    pub max_width: u16,
    pub max_height: u16,
    pub rounded_corners: bool,
    pub border: bool,
    pub border_color: Rgb,
    pub prefix: String,
    /// Columns the prefix takes.
    pub prefix_width: u16,
    pub prefix_color: Rgb,
    pub multiline: bool,
}

/// A size setting as a cell count: unset means unbounded, and a value beyond
/// what a terminal coordinate holds is capped at `u16::MAX`.
pub open spec fn cell_count(v: Option<usize>) -> u16 {
    match v {
        Some(n) => if n <= u16::MAX {
            n as u16
        } else {
            u16::MAX
        },
        None => u16::MAX,
    }
}

/// A size setting is the box's maximum: on any area, the box takes the
/// setting or the area's extent, whichever is smaller, and an unset size
/// takes the whole extent.
pub proof fn lemma_size_setting_caps_box(v: Option<usize>, extent: u16)
    ensures
        v matches Some(n) ==> min_u16(cell_count(v), extent) as int == (if n <= extent {
            n as int
        } else {
            extent as int
        }),
        v is None ==> min_u16(cell_count(v), extent) == extent,
{
}

/// The settings can be drawn: every setting without a fallback is set, and
/// the colors can be read.
pub open spec fn theme_ready(ui: UiConfig) -> bool {
    &&& ui.rounded_corners is Some
    &&& ui.border is Some
    &&& ui.multiline is Some
    &&& ui.prefix is Some
    &&& ui.border_color matches Some(c) && hex_color_cuttable(encode_utf8(c@))
    &&& ui.prefix_color matches Some(c) ==> hex_color_cuttable(encode_utf8(c@))
}

/// Settings resolved for a station (over the global block and the defaults)
/// can always be drawn once their colors can be read: layering over the
/// defaults leaves no other setting unset.
pub proof fn lemma_resolved_ui_drawable(ui: UiConfig, c: ConfigView, s: StationView)
    requires
        ui@ == station_ui(c, s),
        ui.border_color matches Some(b) && hex_color_cuttable(encode_utf8(b@)),
        ui.prefix_color matches Some(p) ==> hex_color_cuttable(encode_utf8(p@)),
    ensures
        theme_ready(ui),
{
    lemma_defaults_fill_all(layer_or_empty(c.ui));
    lemma_ui_view_fields(ui);
}

impl Theme {
    /// Whether `from_ui` can resolve `ui` (see `theme_ready`).
    pub fn is_ready(ui: &UiConfig) -> (ok: bool)
        ensures
            ok == theme_ready(*ui),
    {
        let colors_ok = match &ui.border_color {
            Some(c) => hex_color_readable(c.as_str()),
            None => false,
        } && match &ui.prefix_color {
            Some(c) => hex_color_readable(c.as_str()),
            None => true,
        };
        colors_ok && ui.rounded_corners.is_some() && ui.border.is_some() && ui.multiline.is_some()
            && ui.prefix.is_some()
    }

    /// Resolves the settings of a prompt box. An unset size is unbounded; an
    /// unset prefix color takes the border color.
    pub fn from_ui(ui: &UiConfig) -> (t: Theme)
        requires
            theme_ready(*ui),
        ensures
            t.max_width == cell_count(ui.max_width),
            t.max_height == cell_count(ui.max_height),
            t.rounded_corners == ui.rounded_corners->0,
            t.border == ui.border->0,
            t.border_color == hex_color(encode_utf8(ui.border_color->0@)),
            t.prefix@ == ui.prefix->0@,
            t.prefix_width == display_width(ui.prefix->0@) % 0x10000,
            t.prefix_color == hex_color(
                encode_utf8(
                    match ui.prefix_color {
                        Some(c) => c@,
                        None => ui.border_color->0@,
                    },
                ),
            ),
            t.multiline == ui.multiline->0,
    {
        let border_text = ui.border_color.as_ref().unwrap();
        let border_color = parse_hex_color(border_text.as_str());
        let prefix_color = match &ui.prefix_color {
            Some(c) => parse_hex_color(c.as_str()),
            None => border_color,
        };
        let prefix = ui.prefix.as_ref().unwrap();
        let prefix_width = low_u16(text_width(prefix.as_str()));
        let max_width = cells(ui.max_width);
        let max_height = cells(ui.max_height);
        Theme {
            max_width,
            max_height,
            rounded_corners: ui.rounded_corners.unwrap(),
            border: ui.border.unwrap(),
            border_color,
            prefix: prefix.clone(),
            prefix_width,
            prefix_color,
            multiline: ui.multiline.unwrap(),
        }
    }
}

} // verus!
