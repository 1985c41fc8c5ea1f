use vstd::prelude::*;

verus! {

/// UI settings of the prompt box. Every field is optional: a layer that leaves
/// a field unset lets the layer beneath it decide.
#[derive(Debug, PartialEq, Eq, PartialOrd, Ord, Clone)]
pub struct UiConfig {
    /// This is the max height of the window including the decorations,
    /// actual text area may be smaller
    pub max_height: Option<usize>,
    /// This is the max width of the window including the decorations,
    /// actual text area may be smaller
    pub max_width: Option<usize>,
    pub rounded_corners: Option<bool>,
    pub border: Option<bool>,
    pub border_color: Option<String>,
    /// Decorative, non-editable prefix shown at the start of the input box.
    pub prefix: Option<String>,
    pub prefix_color: Option<String>,
    /// Whether the input box accepts several lines.
    pub multiline: Option<bool>,
}

/// The abstract value of a `UiConfig`: its fields, with strings taken as
/// sequences of characters.
pub struct UiView {
    pub max_height: Option<usize>,
    pub max_width: Option<usize>,
    pub rounded_corners: Option<bool>,
    pub border: Option<bool>,
    pub border_color: Option<Seq<char>>,
    pub prefix: Option<Seq<char>>,
    pub prefix_color: Option<Seq<char>>,
    pub multiline: Option<bool>,
}

pub open spec fn text_view(s: Option<String>) -> Option<Seq<char>> {
    match s {
        Some(t) => Some(t@),
        None => None,
    }
}

impl View for UiConfig {
    type V = UiView;

    open spec fn view(&self) -> UiView {
        UiView {
            max_height: self.max_height,
            max_width: self.max_width,
            rounded_corners: self.rounded_corners,
            border: self.border,
            border_color: text_view(self.border_color),
            prefix: text_view(self.prefix),
            prefix_color: text_view(self.prefix_color),
            multiline: self.multiline,
        }
    }
}

/// The view of UI settings holds every setting, strings as their characters.
pub proof fn lemma_ui_view_fields(u: UiConfig)
    ensures
        u@.max_height == u.max_height,
        u@.max_width == u.max_width,
        u@.rounded_corners == u.rounded_corners,
        u@.border == u.border,
        u@.multiline == u.multiline,
        u.border_color is None <==> u@.border_color is None,
        u.prefix is None <==> u@.prefix is None,
        u.prefix_color is None <==> u@.prefix_color is None,
        forall|t: String| u.border_color == Some(t) ==> #[trigger] u@.border_color == Some(t@),
        forall|t: String| u.prefix == Some(t) ==> #[trigger] u@.prefix == Some(t@),
        forall|t: String| u.prefix_color == Some(t) ==> #[trigger] u@.prefix_color == Some(t@),
{
}

/// One field after layering: the upper layer's value when it sets one, else the lower's.
pub open spec fn pick<T>(lower: Option<T>, upper: Option<T>) -> Option<T> {
    if upper is Some {
        upper
    } else {
        lower
    }
}

/// `upper` laid over `lower`, field by field.
pub open spec fn layer(lower: UiView, upper: UiView) -> UiView {
    UiView {
        max_height: pick(lower.max_height, upper.max_height),
        max_width: pick(lower.max_width, upper.max_width),
        rounded_corners: pick(lower.rounded_corners, upper.rounded_corners),
        border: pick(lower.border, upper.border),
        border_color: pick(lower.border_color, upper.border_color),
        prefix: pick(lower.prefix, upper.prefix),
        prefix_color: pick(lower.prefix_color, upper.prefix_color),
        multiline: pick(lower.multiline, upper.multiline),
    }
}

/// A layer that sets nothing.
pub open spec fn empty_view() -> UiView {
    UiView {
        max_height: None,
        max_width: None,
        rounded_corners: None,
        border: None,
        border_color: None,
        prefix: None,
        prefix_color: None,
        multiline: None,
    }
}

/// The built-in defaults. `prefix_color` is left unset on purpose: an unset
/// prefix color falls back to the border color.
pub open spec fn default_view() -> UiView {
    UiView {
        max_height: Some(3),
        max_width: Some(40),
        rounded_corners: Some(true),
        border: Some(true),
        border_color: Some("#ffffff"@),
        prefix: Some(" \u{f044} "@),
        prefix_color: None,
        multiline: Some(false),
    }
}

/// Laying `c` over the result of laying `b` over `a` is the same as laying
/// over `a` the layer that `c` over `b` makes: the order in which layers are
/// merged does not matter, only their stacking order.
pub proof fn lemma_layer_associative(a: UiView, b: UiView, c: UiView)
    ensures
        layer(layer(a, b), c) == layer(a, layer(b, c)),
{
}

/// A layer that sets nothing changes nothing, whether it lies above or below.
pub proof fn lemma_layer_empty_identity(a: UiView)
    ensures
        layer(a, empty_view()) == a,
        layer(empty_view(), a) == a,
{
}

/// Laying a configuration over itself gives it back.
pub proof fn lemma_layer_idempotent(a: UiView)
    ensures
        layer(a, a) == a,
{
}

/// Laying anything over the built-in defaults sets every field, except the
/// prefix color, which then falls back to the border color.
pub proof fn lemma_defaults_fill_all(upper: UiView)
    ensures
        ({
            let r = layer(default_view(), upper);
            &&& r.max_height is Some
            &&& r.max_width is Some
            &&& r.rounded_corners is Some
            &&& r.border is Some
            &&& r.border_color is Some
            &&& r.prefix is Some
            &&& r.multiline is Some
        }),
{
}

fn clone_text(s: &Option<String>) -> (r: Option<String>)
    ensures
        text_view(r) == text_view(*s),
{
    match s {
        Some(t) => Some(t.clone()),
        None => None,
    }
}

impl UiConfig {
    /// A copy of `self` in which every field that `ui_config` sets takes the
    /// value from `ui_config`.
    pub fn override_with(&self, ui_config: &UiConfig) -> (result: Self)
        ensures
            result@ == layer(self@, ui_config@),
    {
        UiConfig {
            max_height: if ui_config.max_height.is_some() {
                ui_config.max_height
            } else {
                self.max_height
            },
            max_width: if ui_config.max_width.is_some() {
                ui_config.max_width
            } else {
                self.max_width
            },
            rounded_corners: if ui_config.rounded_corners.is_some() {
                ui_config.rounded_corners
            } else {
                self.rounded_corners
            },
            border: if ui_config.border.is_some() {
                ui_config.border
            } else {
                self.border
            },
            border_color: if ui_config.border_color.is_some() {
                clone_text(&ui_config.border_color)
            } else {
                clone_text(&self.border_color)
            },
            prefix: if ui_config.prefix.is_some() {
                clone_text(&ui_config.prefix)
            } else {
                clone_text(&self.prefix)
            },
            prefix_color: if ui_config.prefix_color.is_some() {
                clone_text(&ui_config.prefix_color)
            } else {
                clone_text(&self.prefix_color)
            },
            multiline: if ui_config.multiline.is_some() {
                ui_config.multiline
            } else {
                self.multiline
            },
        }
    }
}

impl Default for UiConfig {
    fn default() -> (r: Self)
        ensures
            r@ == default_view(),
    {
        UiConfig {
            max_height: Some(3),
            max_width: Some(40),
            rounded_corners: Some(true),
            border: Some(true),
            border_color: Some(String::from_str("#ffffff")),
            prefix: Some(String::from_str(" \u{f044} ")),
            prefix_color: None,
            multiline: Some(false),
        }
    }
}

} // verus!
