//! Themes and the resolution of semantic style intents into concrete styles.

use vstd::prelude::*;

verus! {

/// A 24-bit color.
#[derive(Debug, Clone, Copy, PartialEq, Eq, Structural)]
pub struct Color {
    pub r: u8,
    pub g: u8,
    pub b: u8,
}

pub open spec fn rgb(r: u8, g: u8, b: u8) -> Color {
    Color { r, g, b }
}

/// Eight named colors; light and dark are the two canonical instances.
#[derive(Debug, Clone, Copy, PartialEq, Eq, Structural)]
pub struct Theme {
    pub background: Color,
    pub foreground: Color,
    pub primary: Color,
    pub secondary: Color,
    pub success: Color,
    pub warning: Color,
    pub error: Color,
    pub info: Color,
}

pub open spec fn light_theme() -> Theme {
    Theme {
        background: rgb(255, 255, 255),
        foreground: rgb(0, 0, 0),
        primary: rgb(0, 122, 204),
        secondary: rgb(108, 117, 125),
        success: rgb(40, 167, 69),
        warning: rgb(255, 193, 7),
        error: rgb(220, 53, 69),
        info: rgb(23, 162, 184),
    }
}

/// The dark theme differs from the light one in background and foreground only.
pub open spec fn dark_theme() -> Theme {
    Theme { background: rgb(30, 30, 30), foreground: rgb(255, 255, 255), ..light_theme() }
}

/// The theme that a toggle switches to: dark after light, light after anything else.
pub open spec fn toggled(t: Theme) -> Theme {
    if t == light_theme() {
        dark_theme()
    } else {
        light_theme()
    }
}

impl Theme {
    /// Create a light theme
    pub fn light() -> (r: Theme)
        ensures
            r == light_theme(),
    {
        Theme {
            background: Color { r: 255, g: 255, b: 255 },
            foreground: Color { r: 0, g: 0, b: 0 },
            primary: Color { r: 0, g: 122, b: 204 },
            secondary: Color { r: 108, g: 117, b: 125 },
            success: Color { r: 40, g: 167, b: 69 },
            warning: Color { r: 255, g: 193, b: 7 },
            error: Color { r: 220, g: 53, b: 69 },
            info: Color { r: 23, g: 162, b: 184 },
        }
    }

    /// Create a dark theme
    pub fn dark() -> (r: Theme)
        ensures
            r == dark_theme(),
    {
        Theme {
            background: Color { r: 30, g: 30, b: 30 },
            foreground: Color { r: 255, g: 255, b: 255 },
            ..Theme::light()
        }
    }

    /// The color a theme assigns to a channel.
    pub open spec fn channel(self, c: Channel) -> Color {
        match c {
            Channel::Background => self.background,
            Channel::Foreground => self.foreground,
            Channel::Primary => self.primary,
            Channel::Secondary => self.secondary,
            Channel::Success => self.success,
            Channel::Warning => self.warning,
            Channel::Error => self.error,
            Channel::Info => self.info,
        }
    }
}

impl Default for Theme {
    fn default() -> (r: Theme)
        ensures
            r == light_theme(),
    {
        Theme::light()
    }
}

/// The eight named colors of a theme, as roles.
#[derive(Debug, Clone, Copy, PartialEq, Eq, Structural)]
pub enum Channel {
    Background,
    Foreground,
    Primary,
    Secondary,
    Success,
    Warning,
    Error,
    Info,
}

/// Background and foreground are the channels on which the two themes differ.
pub open spec fn is_base_channel(c: Channel) -> bool {
    c == Channel::Background || c == Channel::Foreground
}

/// Style types for different UI elements
#[derive(Debug, Clone, Copy, PartialEq, Eq, Structural)]
pub enum StyleType {
    Header,
    Sidebar,
    Content,
    StatusBar,
    Button,
    ButtonActive,
    Input,
    InputFocus,
    Title,
    Subtitle,
    Text,
    MutedText,
    Error,
    Success,
    Warning,
    Info,
    Border,
    BorderFocus,
}

/// A concrete style: optional foreground and background colors, and boldness.
#[derive(Debug, Clone, Copy, PartialEq, Eq, Structural)]
pub struct Style {
    pub fg: Option<Color>,
    pub bg: Option<Color>,
    pub bold: bool,
}

/// The style of text that no intent styles.
pub open spec fn plain_style() -> Style {
    Style { fg: None, bg: None, bold: false }
}

impl Style {
    /// The unstyled style: no colors, no modifier.
    pub fn plain() -> (r: Style)
        ensures
            r == plain_style(),
    {
        Style { fg: None, bg: None, bold: false }
    }
}

/// Which channels an intent draws its colors from, and whether it is bold.
pub struct Recipe {
    pub fg: Option<Channel>,
    pub bg: Option<Channel>,
    pub bold: bool,
}

pub open spec fn recipe(fg: Option<Channel>, bg: Option<Channel>, bold: bool) -> Recipe {
    Recipe { fg, bg, bold }
}

/// The mapping of every intent to its channels.
pub open spec fn intent_recipe(st: StyleType) -> Recipe {
    match st {
        StyleType::Header => recipe(Some(Channel::Foreground), Some(Channel::Primary), true),
        StyleType::Sidebar => recipe(Some(Channel::Foreground), Some(Channel::Secondary), false),
        StyleType::Content => recipe(Some(Channel::Foreground), Some(Channel::Background), false),
        StyleType::StatusBar => recipe(Some(Channel::Secondary), Some(Channel::Background), false),
        StyleType::Button => recipe(Some(Channel::Foreground), Some(Channel::Primary), false),
        StyleType::ButtonActive => recipe(Some(Channel::Background), Some(Channel::Primary), true),
        StyleType::Input => recipe(Some(Channel::Foreground), Some(Channel::Background), false),
        StyleType::InputFocus => recipe(Some(Channel::Foreground), Some(Channel::Background), true),
        StyleType::Title => recipe(Some(Channel::Primary), None, true),
        StyleType::Subtitle => recipe(Some(Channel::Secondary), None, true),
        StyleType::Text => recipe(Some(Channel::Foreground), None, false),
        StyleType::MutedText => recipe(Some(Channel::Secondary), None, false),
        StyleType::Error => recipe(Some(Channel::Error), None, true),
        StyleType::Success => recipe(Some(Channel::Success), None, true),
        StyleType::Warning => recipe(Some(Channel::Warning), None, true),
        StyleType::Info => recipe(Some(Channel::Info), None, true),
        StyleType::Border => recipe(Some(Channel::Secondary), None, false),
        StyleType::BorderFocus => recipe(Some(Channel::Primary), None, false),
    }
}

pub open spec fn channel_color(t: Theme, c: Option<Channel>) -> Option<Color> {
    match c {
        Some(ch) => Some(t.channel(ch)),
        None => None,
    }
}

/// The concrete style of an intent under a theme.
pub open spec fn resolve(t: Theme, st: StyleType) -> Style {
    let rc = intent_recipe(st);
    Style { fg: channel_color(t, rc.fg), bg: channel_color(t, rc.bg), bold: rc.bold }
}

/// The style of a line with an optional intent: plain where there is none.
pub open spec fn resolve_opt(t: Theme, st: Option<StyleType>) -> Style {
    match st {
        Some(s) => resolve(t, s),
        None => plain_style(),
    }
}

/// Whether an intent takes a color from a channel on which the themes differ.
pub open spec fn draws_on_base(st: StyleType) -> bool {
    let rc = intent_recipe(st);
    (rc.fg.is_some() && is_base_channel(rc.fg.unwrap())) || (rc.bg.is_some()
        && is_base_channel(rc.bg.unwrap()))
}

/// Resolution tells the two themes apart exactly for the intents that draw on
/// background or foreground; a color taken from any other channel is the same
/// under both themes.
pub proof fn lemma_theme_dependence(st: StyleType)
    ensures
        draws_on_base(st) ==> resolve(light_theme(), st) != resolve(dark_theme(), st),
        !draws_on_base(st) ==> resolve(light_theme(), st) == resolve(dark_theme(), st),
        intent_recipe(st).fg.is_some() && !is_base_channel(intent_recipe(st).fg.unwrap())
            ==> resolve(light_theme(), st).fg == resolve(dark_theme(), st).fg,
        intent_recipe(st).bg.is_some() && !is_base_channel(intent_recipe(st).bg.unwrap())
            ==> resolve(light_theme(), st).bg == resolve(dark_theme(), st).bg,
{
}

/// Toggling a canonical theme twice gives it back.
pub proof fn lemma_toggle_involution(t: Theme)
    requires
        t == light_theme() || t == dark_theme(),
    ensures
        toggled(toggled(t)) == t,
{
    assert(light_theme() != dark_theme()) by {
        assert(light_theme().background != dark_theme().background);
    }
}

/// A span of text with its resolved style.
#[derive(Debug, Clone, PartialEq, Eq)]
pub struct Span {
    pub content: String,
    pub style: Style,
}

impl Span {
    pub open spec fn model(&self) -> (Seq<char>, Style) {
        (self.content@, self.style)
    }
}

/// Style manager for the application
#[derive(Debug, Clone, Copy)]
pub struct StyleManager {
    theme: Theme,
}

impl View for StyleManager {
    type V = Theme;

    closed spec fn view(&self) -> Theme {
        self.theme
    }
}

impl Default for StyleManager {
    fn default() -> (r: StyleManager)
        ensures
            r@ == light_theme(),
    {
        StyleManager::new(Theme::default())
    }
}

impl StyleManager {
    /// Create a new style manager with the given theme
    pub fn new(theme: Theme) -> (r: StyleManager)
        ensures
            r@ == theme,
    {
        StyleManager { theme }
    }

    /// Get a style for the given style type
    pub fn get_style(&self, style_type: StyleType) -> (r: Style)
        ensures
            r == resolve(self@, style_type),
    {
        let t = &self.theme;
        match style_type {
            StyleType::Header => Style { fg: Some(t.foreground), bg: Some(t.primary), bold: true },
            StyleType::Sidebar => Style { fg: Some(t.foreground), bg: Some(t.secondary), bold: false },
            StyleType::Content => Style { fg: Some(t.foreground), bg: Some(t.background), bold: false },
            StyleType::StatusBar => Style { fg: Some(t.secondary), bg: Some(t.background), bold: false },
            StyleType::Button => Style { fg: Some(t.foreground), bg: Some(t.primary), bold: false },
            StyleType::ButtonActive => Style { fg: Some(t.background), bg: Some(t.primary), bold: true },
            StyleType::Input => Style { fg: Some(t.foreground), bg: Some(t.background), bold: false },
            StyleType::InputFocus => Style { fg: Some(t.foreground), bg: Some(t.background), bold: true },
            StyleType::Title => Style { fg: Some(t.primary), bg: None, bold: true },
            StyleType::Subtitle => Style { fg: Some(t.secondary), bg: None, bold: true },
            StyleType::Text => Style { fg: Some(t.foreground), bg: None, bold: false },
            StyleType::MutedText => Style { fg: Some(t.secondary), bg: None, bold: false },
            StyleType::Error => Style { fg: Some(t.error), bg: None, bold: true },
            StyleType::Success => Style { fg: Some(t.success), bg: None, bold: true },
            StyleType::Warning => Style { fg: Some(t.warning), bg: None, bold: true },
            StyleType::Info => Style { fg: Some(t.info), bg: None, bold: true },
            StyleType::Border => Style { fg: Some(t.secondary), bg: None, bold: false },
            StyleType::BorderFocus => Style { fg: Some(t.primary), bg: None, bold: false },
        }
    }

    /// The style of a line with an optional intent: plain where there is none.
    pub fn get_style_opt(&self, style_type: Option<StyleType>) -> (r: Style)
        ensures
            r == resolve_opt(self@, style_type),
    {
        match style_type {
            Some(st) => self.get_style(st),
            None => Style::plain(),
        }
    }

    /// Get a span with the given style
    pub fn get_span(&self, text: &str, style_type: StyleType) -> (r: Span)
        ensures
            r.content@ == text@,
            r.style == resolve(self@, style_type),
    {
        Span { content: String::from_str(text), style: self.get_style(style_type) }
    }

    /// Get the current theme
    pub fn theme(&self) -> (r: &Theme)
        ensures
            *r == self@,
    {
        &self.theme
    }

    /// Set a new theme
    pub fn set_theme(&mut self, theme: Theme)
        ensures
            final(self)@ == theme,
    {
        self.theme = theme;
    }

    /// Toggle between light and dark theme
    pub fn toggle_theme(&mut self)
        ensures
            final(self)@ == toggled(old(self)@),
    {
        self.theme = if self.theme == Theme::light() {
            Theme::dark()
        } else {
            Theme::light()
        };
    }
}

} // verus!
