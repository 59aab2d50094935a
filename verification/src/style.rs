use vstd::prelude::*;

verus! {

/// A terminal palette colour: one of the eight classic names, an entry in the
/// 256-colour table, or a 24-bit true colour.
#[derive(Clone, Copy, Debug, PartialEq, Eq)]
pub enum Color {
    Black,
    Red,
    Green,
    Yellow,
    Blue,
    Purple,
    Cyan,
    White,
    Fixed(u8),
    Rgb(u8, u8, u8),
}

/// A display style: an optional foreground colour, an optional background
/// colour, and eight independent attribute flags. Immutable once built and
/// cheap to copy.
#[derive(Clone, Copy, Debug, PartialEq, Eq)]
pub struct Style {
    pub foreground: Option<Color>,
    pub background: Option<Color>,
    pub is_bold: bool,
    pub is_dimmed: bool,
    pub is_italic: bool,
    pub is_underline: bool,
    pub is_blink: bool,
    pub is_reverse: bool,
    pub is_hidden: bool,
    pub is_strikethrough: bool,
}

impl Style {
    /// The style with no colours and no attributes.
    pub open spec fn spec_plain() -> Style {
        Style {
            foreground: None,
            background: None,
            is_bold: false,
            is_dimmed: false,
            is_italic: false,
            is_underline: false,
            is_blink: false,
            is_reverse: false,
            is_hidden: false,
            is_strikethrough: false,
        }
    }

    pub fn plain() -> (r: Style)
        ensures
            r == Style::spec_plain(),
    {
        Style {
            foreground: None,
            background: None,
            is_bold: false,
            is_dimmed: false,
            is_italic: false,
            is_underline: false,
            is_blink: false,
            is_reverse: false,
            is_hidden: false,
            is_strikethrough: false,
        }
    }

    pub fn fg(self, c: Color) -> (r: Style)
        ensures
            r == (Style { foreground: Some(c), ..self }),
    {
        Style { foreground: Some(c), ..self }
    }

    pub fn on(self, c: Color) -> (r: Style)
        ensures
            r == (Style { background: Some(c), ..self }),
    {
        Style { background: Some(c), ..self }
    }

    pub fn bold(self) -> (r: Style)
        ensures
            r == (Style { is_bold: true, ..self }),
    {
        Style { is_bold: true, ..self }
    }

    pub fn dimmed(self) -> (r: Style)
        ensures
            r == (Style { is_dimmed: true, ..self }),
    {
        Style { is_dimmed: true, ..self }
    }

    pub fn italic(self) -> (r: Style)
        ensures
            r == (Style { is_italic: true, ..self }),
    {
        Style { is_italic: true, ..self }
    }

    pub fn underline(self) -> (r: Style)
        ensures
            r == (Style { is_underline: true, ..self }),
    {
        Style { is_underline: true, ..self }
    }

    pub fn blink(self) -> (r: Style)
        ensures
            r == (Style { is_blink: true, ..self }),
    {
        Style { is_blink: true, ..self }
    }

    pub fn reverse(self) -> (r: Style)
        ensures
            r == (Style { is_reverse: true, ..self }),
    {
        Style { is_reverse: true, ..self }
    }

    pub fn hidden(self) -> (r: Style)
        ensures
            r == (Style { is_hidden: true, ..self }),
    {
        Style { is_hidden: true, ..self }
    }

    pub fn strikethrough(self) -> (r: Style)
        ensures
            r == (Style { is_strikethrough: true, ..self }),
    {
        Style { is_strikethrough: true, ..self }
    }
}

impl Default for Style {
    fn default() -> (r: Style)
        ensures
            r == Style::spec_plain(),
    {
        Style::plain()
    }
}

impl Color {
    /// A style whose foreground is this colour and nothing else is set.
    pub fn normal(self) -> (r: Style)
        ensures
            r == (Style { foreground: Some(self), ..Style::spec_plain() }),
    {
        Style::plain().fg(self)
    }

    /// A bold style whose foreground is this colour.
    pub fn bold(self) -> (r: Style)
        ensures
            r == (Style { foreground: Some(self), is_bold: true, ..Style::spec_plain() }),
    {
        Style::plain().fg(self).bold()
    }
}

/// Overlay composition: the overlay's colours replace the base's only where
/// the overlay names one, and each attribute flag is the disjunction of the
/// two. Overlays can only add emphasis, never remove it.
pub open spec fn spec_apply_overlay(base: Style, overlay: Style) -> Style {
    Style {
        foreground: if overlay.foreground is Some {
            overlay.foreground
        } else {
            base.foreground
        },
        background: if overlay.background is Some {
            overlay.background
        } else {
            base.background
        },
        is_bold: base.is_bold || overlay.is_bold,
        is_dimmed: base.is_dimmed || overlay.is_dimmed,
        is_italic: base.is_italic || overlay.is_italic,
        is_underline: base.is_underline || overlay.is_underline,
        is_blink: base.is_blink || overlay.is_blink,
        is_reverse: base.is_reverse || overlay.is_reverse,
        is_hidden: base.is_hidden || overlay.is_hidden,
        is_strikethrough: base.is_strikethrough || overlay.is_strikethrough,
    }
}

/// Amend a base style with an overlay style (used to derive secondary styles,
/// such as the broken variant of a path or control-character style).
pub fn apply_overlay(base: Style, overlay: Style) -> (r: Style)
    ensures
        r == spec_apply_overlay(base, overlay),
{
    Style {
        foreground: match overlay.foreground {
            Some(fg) => Some(fg),
            None => base.foreground,
        },
        background: match overlay.background {
            Some(bg) => Some(bg),
            None => base.background,
        },
        is_bold: base.is_bold || overlay.is_bold,
        is_dimmed: base.is_dimmed || overlay.is_dimmed,
        is_italic: base.is_italic || overlay.is_italic,
        is_underline: base.is_underline || overlay.is_underline,
        is_blink: base.is_blink || overlay.is_blink,
        is_reverse: base.is_reverse || overlay.is_reverse,
        is_hidden: base.is_hidden || overlay.is_hidden,
        is_strikethrough: base.is_strikethrough || overlay.is_strikethrough,
    }
}

/// Law: applying the same overlay twice gives the same style as applying it
/// once.
pub proof fn lemma_overlay_idempotent(base: Style, overlay: Style)
    ensures
        spec_apply_overlay(spec_apply_overlay(base, overlay), overlay) == spec_apply_overlay(
            base,
            overlay,
        ),
{
}

/// Law: an overlay never clears an attribute that is already set in the base.
pub proof fn lemma_overlay_monotonic(base: Style, overlay: Style)
    ensures
        base.is_bold ==> spec_apply_overlay(base, overlay).is_bold,
        base.is_dimmed ==> spec_apply_overlay(base, overlay).is_dimmed,
        base.is_italic ==> spec_apply_overlay(base, overlay).is_italic,
        base.is_underline ==> spec_apply_overlay(base, overlay).is_underline,
        base.is_blink ==> spec_apply_overlay(base, overlay).is_blink,
        base.is_reverse ==> spec_apply_overlay(base, overlay).is_reverse,
        base.is_hidden ==> spec_apply_overlay(base, overlay).is_hidden,
        base.is_strikethrough ==> spec_apply_overlay(base, overlay).is_strikethrough,
{
}

} // verus!
