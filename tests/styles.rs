use ratatui_tui::styles::{Color, Style, StyleManager, StyleType, Theme};

#[test]
fn test_theme_creation() {
    let light_theme = Theme::light();
    let dark_theme = Theme::dark();

    assert_ne!(light_theme.background, dark_theme.background);
    assert_ne!(light_theme.foreground, dark_theme.foreground);
    assert_eq!(light_theme.primary, dark_theme.primary);
}

#[test]
fn test_style_manager() {
    let style_manager = StyleManager::default();
    let header_style = style_manager.get_style(StyleType::Header);
    let content_style = style_manager.get_style(StyleType::Content);

    assert_ne!(header_style, content_style);
}

#[test]
fn test_span_creation() {
    let style_manager = StyleManager::default();
    let span = style_manager.get_span("Test", StyleType::Title);

    assert_eq!(span.content, "Test");
}

#[test]
fn test_theme_toggle() {
    let mut style_manager = StyleManager::new(Theme::light());
    assert_eq!(style_manager.theme(), &Theme::light());

    style_manager.toggle_theme();
    assert_eq!(style_manager.theme(), &Theme::dark());

    style_manager.toggle_theme();
    assert_eq!(style_manager.theme(), &Theme::light());
}

#[test]
fn header_style_differs_by_theme_but_keeps_primary() {
    let light = StyleManager::new(Theme::light()).get_style(StyleType::Header);
    let dark = StyleManager::new(Theme::dark()).get_style(StyleType::Header);
    assert_ne!(light, dark);
    assert_eq!(light.bg, dark.bg);
    assert_eq!(light.bg, Some(Color { r: 0, g: 122, b: 204 }));
    assert_eq!(light.fg, Some(Color { r: 0, g: 0, b: 0 }));
    assert_eq!(dark.fg, Some(Color { r: 255, g: 255, b: 255 }));
    assert!(light.bold);
}

#[test]
fn theme_invariant_intents_match_across_themes() {
    let light = StyleManager::new(Theme::light());
    let dark = StyleManager::new(Theme::dark());
    for st in [
        StyleType::Title,
        StyleType::Subtitle,
        StyleType::MutedText,
        StyleType::Error,
        StyleType::Success,
        StyleType::Warning,
        StyleType::Info,
        StyleType::Border,
        StyleType::BorderFocus,
    ] {
        assert_eq!(light.get_style(st), dark.get_style(st));
    }
    for st in [
        StyleType::Header,
        StyleType::Sidebar,
        StyleType::Content,
        StyleType::StatusBar,
        StyleType::Button,
        StyleType::ButtonActive,
        StyleType::Input,
        StyleType::InputFocus,
        StyleType::Text,
    ] {
        assert_ne!(light.get_style(st), dark.get_style(st));
    }
}

#[test]
fn error_style_exact() {
    let sm = StyleManager::default();
    assert_eq!(
        sm.get_style(StyleType::Error),
        Style { fg: Some(Color { r: 220, g: 53, b: 69 }), bg: None, bold: true }
    );
    assert_eq!(Style::plain(), Style { fg: None, bg: None, bold: false });
}

#[test]
fn toggle_twice_is_identity() {
    for t in [Theme::light(), Theme::dark()] {
        let mut sm = StyleManager::new(t);
        sm.toggle_theme();
        assert_ne!(sm.theme(), &t);
        sm.toggle_theme();
        assert_eq!(sm.theme(), &t);
    }
}

#[test]
fn set_theme_replaces() {
    let mut sm = StyleManager::default();
    sm.set_theme(Theme::dark());
    assert_eq!(sm.theme(), &Theme::dark());
}
