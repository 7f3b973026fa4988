//! The colours of the screens, and the style each tone is drawn in.

use vstd::prelude::*;
use crate::ui::screen::Tone;

verus! {

/// A colour as its red, green and blue parts.
#[derive(Debug, Clone, Copy, PartialEq, Eq, Structural)]
pub struct Rgb {
    pub r: u8,
    pub g: u8,
    pub b: u8,
}

pub open spec fn rgb(r: u8, g: u8, b: u8) -> Rgb {
    Rgb { r, g, b }
}

/// How text is drawn: its colours (the terminal's own where absent) and
/// whether it is bold or underlined.
#[derive(Debug, Clone, Copy, PartialEq, Eq, Structural)]
pub struct TextStyle {
    pub fg: Option<Rgb>,
    pub bg: Option<Rgb>,
    pub bold: bool,
    pub underlined: bool,
}

pub open spec fn fg(c: Rgb) -> TextStyle {
    TextStyle { fg: Some(c), bg: None, bold: false, underlined: false }
}

pub open spec fn fg_bold(c: Rgb) -> TextStyle {
    TextStyle { fg: Some(c), bg: None, bold: true, underlined: false }
}

pub open spec fn on(c: Rgb, back: Rgb) -> TextStyle {
    TextStyle { fg: Some(c), bg: Some(back), bold: false, underlined: false }
}

pub open spec fn bg_rgb() -> Rgb { rgb(22, 22, 30) }
pub open spec fn bg_elevated_rgb() -> Rgb { rgb(30, 30, 40) }
pub open spec fn bg_selected_rgb() -> Rgb { rgb(40, 40, 55) }
pub open spec fn bg_status_bar_rgb() -> Rgb { rgb(18, 18, 24) }
pub open spec fn text_rgb() -> Rgb { rgb(200, 200, 210) }
pub open spec fn muted_rgb() -> Rgb { rgb(120, 120, 135) }
pub open spec fn dim_rgb() -> Rgb { rgb(80, 80, 95) }
pub open spec fn accent_rgb() -> Rgb { rgb(100, 140, 220) }
pub open spec fn error_rgb() -> Rgb { rgb(220, 100, 100) }
pub open spec fn success_rgb() -> Rgb { rgb(100, 200, 130) }
pub open spec fn warning_rgb() -> Rgb { rgb(220, 180, 80) }
pub open spec fn border_rgb() -> Rgb { rgb(55, 55, 70) }

/// The colours and styles of the interface.
#[derive(Debug, Clone, Copy, PartialEq, Eq)]
pub struct Theme {
    pub bg: Rgb,
    pub bg_elevated: Rgb,
    pub bg_selected: Rgb,
    pub bg_status_bar: Rgb,
    pub text: TextStyle,
    pub text_muted: TextStyle,
    pub text_dim: TextStyle,
    pub text_accent: TextStyle,
    pub text_error: TextStyle,
    pub text_success: TextStyle,
    pub text_warning: TextStyle,
    pub border: TextStyle,
    pub border_focused: TextStyle,
    pub title: TextStyle,
    pub workspace_active: TextStyle,
    pub workspace_inactive: TextStyle,
    pub keyhint_key: TextStyle,
    pub keyhint_desc: TextStyle,
    pub thread_needs_reply: TextStyle,
    pub thread_waiting: TextStyle,
    pub thread_low_value: TextStyle,
    pub thread_selected: TextStyle,
    pub selection: TextStyle,
    pub section_header: TextStyle,
    pub count_badge: TextStyle,
    pub warning: TextStyle,
    pub success: TextStyle,
    pub danger: TextStyle,
}

/// The dark theme: light text on a near-black background, blue accents,
/// warm warnings and red errors.
pub open spec fn default_theme() -> Theme {
    Theme {
        bg: bg_rgb(),
        bg_elevated: bg_elevated_rgb(),
        bg_selected: bg_selected_rgb(),
        bg_status_bar: bg_status_bar_rgb(),
        text: fg(text_rgb()),
        text_muted: fg(muted_rgb()),
        text_dim: fg(dim_rgb()),
        text_accent: fg(accent_rgb()),
        text_error: fg(error_rgb()),
        text_success: fg(success_rgb()),
        text_warning: fg(warning_rgb()),
        border: fg(border_rgb()),
        border_focused: fg(accent_rgb()),
        title: fg_bold(text_rgb()),
        workspace_active: fg_bold(accent_rgb()),
        workspace_inactive: fg(muted_rgb()),
        keyhint_key: fg_bold(accent_rgb()),
        keyhint_desc: fg(muted_rgb()),
        thread_needs_reply: fg_bold(warning_rgb()),
        thread_waiting: fg(accent_rgb()),
        thread_low_value: fg(dim_rgb()),
        thread_selected: on(text_rgb(), bg_selected_rgb()),
        selection: on(text_rgb(), bg_selected_rgb()),
        section_header: TextStyle { fg: Some(text_rgb()), bg: None, bold: true, underlined: true },
        count_badge: fg_bold(accent_rgb()),
        warning: fg(warning_rgb()),
        success: fg(success_rgb()),
        danger: fg(error_rgb()),
    }
}

fn style(fg: Option<Rgb>, bg: Option<Rgb>, bold: bool, underlined: bool) -> (r: TextStyle)
    ensures
        r == (TextStyle { fg, bg, bold, underlined }),
{
    TextStyle { fg, bg, bold, underlined }
}

impl Default for Theme {
    fn default() -> (r: Self)
        ensures
            r == default_theme(),
    {
        let bg = Rgb { r: 22, g: 22, b: 30 };
        let bg_selected = Rgb { r: 40, g: 40, b: 55 };
        let text = Rgb { r: 200, g: 200, b: 210 };
        let muted = Rgb { r: 120, g: 120, b: 135 };
        let dim = Rgb { r: 80, g: 80, b: 95 };
        let accent = Rgb { r: 100, g: 140, b: 220 };
        let error = Rgb { r: 220, g: 100, b: 100 };
        let success = Rgb { r: 100, g: 200, b: 130 };
        let warning = Rgb { r: 220, g: 180, b: 80 };
        let border = Rgb { r: 55, g: 55, b: 70 };
        Theme {
            bg,
            bg_elevated: Rgb { r: 30, g: 30, b: 40 },
            bg_selected,
            bg_status_bar: Rgb { r: 18, g: 18, b: 24 },
            text: style(Some(text), None, false, false),
            text_muted: style(Some(muted), None, false, false),
            text_dim: style(Some(dim), None, false, false),
            text_accent: style(Some(accent), None, false, false),
            text_error: style(Some(error), None, false, false),
            text_success: style(Some(success), None, false, false),
            text_warning: style(Some(warning), None, false, false),
            border: style(Some(border), None, false, false),
            border_focused: style(Some(accent), None, false, false),
            title: style(Some(text), None, true, false),
            workspace_active: style(Some(accent), None, true, false),
            workspace_inactive: style(Some(muted), None, false, false),
            keyhint_key: style(Some(accent), None, true, false),
            keyhint_desc: style(Some(muted), None, false, false),
            thread_needs_reply: style(Some(warning), None, true, false),
            thread_waiting: style(Some(accent), None, false, false),
            thread_low_value: style(Some(dim), None, false, false),
            thread_selected: style(Some(text), Some(bg_selected), false, false),
            selection: style(Some(text), Some(bg_selected), false, false),
            section_header: style(Some(text), None, true, true),
            count_badge: style(Some(accent), None, true, false),
            warning: style(Some(warning), None, false, false),
            success: style(Some(success), None, false, false),
            danger: style(Some(error), None, false, false),
        }
    }
}

/// The terminal's own colours, neither bold nor underlined.
pub open spec fn plain_style() -> TextStyle {
    TextStyle { fg: None, bg: None, bold: false, underlined: false }
}

/// The style a tone is drawn in: each names one of the theme's styles; a
/// draft status is the dim style in bold.
pub open spec fn tone_style_spec(t: Theme, tone: Tone) -> TextStyle {
    match tone {
        Tone::Plain => plain_style(),
        Tone::Text => t.text,
        Tone::Accent => t.text_accent,
        Tone::Dim => t.text_dim,
        Tone::Muted => t.text_muted,
        Tone::Error => t.text_error,
        Tone::Title => t.title,
        Tone::Header => t.section_header,
        Tone::NeedsReply => t.thread_needs_reply,
        Tone::Waiting => t.thread_waiting,
        Tone::LowValue => t.thread_low_value,
        Tone::Badge => t.count_badge,
        Tone::Active => t.workspace_active,
        Tone::Selection => t.selection,
        Tone::Status => TextStyle { bold: true, ..t.text_dim },
    }
}

impl Theme {
    pub fn tone_style(&self, tone: Tone) -> (r: TextStyle)
        ensures
            r == tone_style_spec(*self, tone),
    {
        match tone {
            Tone::Plain => style(None, None, false, false),
            Tone::Text => self.text,
            Tone::Accent => self.text_accent,
            Tone::Dim => self.text_dim,
            Tone::Muted => self.text_muted,
            Tone::Error => self.text_error,
            Tone::Title => self.title,
            Tone::Header => self.section_header,
            Tone::NeedsReply => self.thread_needs_reply,
            Tone::Waiting => self.thread_waiting,
            Tone::LowValue => self.thread_low_value,
            Tone::Badge => self.count_badge,
            Tone::Active => self.workspace_active,
            Tone::Selection => self.selection,
            Tone::Status => TextStyle { bold: true, ..self.text_dim },
        }
    }
}

} // verus!
