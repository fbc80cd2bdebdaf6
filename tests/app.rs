use ratatui_tui::app::{App, InputEvent, Key, KeyKind, View};
use ratatui_tui::pane::Body;
use ratatui_tui::styles::{StyleType, Theme};
use ratatui_tui::widgets::Rect;

#[test]
fn test_app_creation() {
    let app = App::new();
    assert_eq!(app.current_view, View::Dashboard);
    assert!(!app.should_quit);
}

#[test]
fn test_view_as_str() {
    assert_eq!(View::Dashboard.as_str(), "dashboard");
    assert_eq!(View::Data.as_str(), "data");
    assert_eq!(View::Settings.as_str(), "settings");
    assert_eq!(View::Help.as_str(), "help");
}

#[test]
fn test_view_equality() {
    assert_eq!(View::Dashboard, View::Dashboard);
    assert_ne!(View::Dashboard, View::Data);
}

#[test]
fn test_get_current_view_content() {
    let app = App::new();
    assert_eq!(app.get_current_view_content(), "Dashboard content loaded...");
}

fn press(c: char) -> InputEvent {
    InputEvent::Key { code: Key::Char(c), kind: KeyKind::Press }
}

fn table_header(body: &Body) -> Vec<String> {
    match body {
        Body::Table { header, .. } => header.cells.clone(),
        _ => panic!("not a table"),
    }
}

#[test]
fn new_app_widgets_show_dashboard() {
    let app = App::new();
    assert_eq!(app.widget_manager.sidebar.current_view, "dashboard");
    assert_eq!(
        app.widget_manager.status_bar.status_text,
        "View: dashboard | Press 'q' to quit | 1-4 for navigation | 't' to toggle theme"
    );
    assert_eq!(app.widget_manager.content.content, "Dashboard content loaded...");
    assert_eq!(app.style_manager.theme(), &Theme::light());
}

#[test]
fn transition_table_keys() {
    let cases = [
        ('1', View::Dashboard),
        ('2', View::Data),
        ('3', View::Settings),
        ('4', View::Help),
    ];
    for (c, v) in cases {
        let mut app = App::new();
        app.handle_key_event(Key::Char('3'));
        assert!(!app.handle_key_event(Key::Char(c)));
        assert_eq!(app.current_view, v);
        assert!(!app.should_quit);
    }
    let mut app = App::new();
    assert!(app.handle_key_event(Key::Char('q')));
    assert!(app.should_quit);
    assert_eq!(app.current_view, View::Dashboard);
    let mut app = App::new();
    app.handle_key_event(Key::Char('4'));
    assert!(app.handle_key_event(Key::Esc));
    assert!(app.should_quit);
    assert_eq!(app.current_view, View::Help);
}

#[test]
fn unbound_keys_change_nothing() {
    let mut app = App::new();
    app.handle_key_event(Key::Char('2'));
    for key in [Key::Char('x'), Key::Char('5'), Key::Char('Q'), Key::Other] {
        assert!(!app.handle_key_event(key));
        assert_eq!(app.current_view, View::Data);
        assert!(!app.should_quit);
        assert_eq!(app.style_manager.theme(), &Theme::light());
    }
}

#[test]
fn theme_key_toggles_and_keeps_view() {
    let mut app = App::new();
    app.handle_key_event(Key::Char('3'));
    assert!(!app.handle_key_event(Key::Char('t')));
    assert_eq!(app.current_view, View::Settings);
    assert_eq!(app.style_manager.theme(), &Theme::dark());
    assert_eq!(app.widget_manager.header.style_manager.theme(), &Theme::dark());
    assert_eq!(app.view_manager.help.style_manager.theme(), &Theme::dark());
    app.handle_key_event(Key::Char('t'));
    assert_eq!(app.style_manager.theme(), &Theme::light());
}

#[test]
fn release_and_other_events_ignored() {
    let mut app = App::new();
    let release = InputEvent::Key { code: Key::Char('q'), kind: KeyKind::Release };
    assert!(!app.handle_event(release));
    assert!(!app.should_quit);
    let repeat = InputEvent::Key { code: Key::Char('2'), kind: KeyKind::Repeat };
    assert!(!app.handle_event(repeat));
    assert_eq!(app.current_view, View::Dashboard);
    assert!(!app.handle_event(InputEvent::Other));
    assert!(app.handle_event(press('q')));
}

#[test]
fn view_change_updates_all_widgets() {
    let mut app = App::new();
    app.handle_key_event(Key::Char('4'));
    assert_eq!(app.widget_manager.sidebar.current_view, "help");
    assert_eq!(
        app.widget_manager.status_bar.status_text,
        "View: help | Press 'q' to quit | 1-4 for navigation | 't' to toggle theme"
    );
    assert_eq!(app.widget_manager.content.content, "Help content loaded...");
    let screen = app.render(Rect { x: 0, y: 0, width: 80, height: 24 });
    let help_style = app.style_manager.get_style(StyleType::ButtonActive);
    match &screen.sidebar.body {
        Body::List { items } => {
            assert_eq!(items[5].content, "4 ❓ Help");
            assert_eq!(items[5].style, help_style);
            assert_ne!(items[2].style, help_style);
            assert_eq!(items[2].content, "1 📊 Dashboard");
        }
        _ => panic!("sidebar is a list"),
    }
    match &screen.content.body {
        Body::Paragraph { lines, .. } => {
            assert_eq!(lines[0].content, "❓ Help & Documentation");
        }
        _ => panic!("help content is a paragraph"),
    }
}

#[test]
fn end_to_end_scenario() {
    let mut app = App::new();
    assert_eq!((app.current_view, app.should_quit), (View::Dashboard, false));
    assert!(!app.handle_event(press('2')));
    assert_eq!((app.current_view, app.should_quit), (View::Data, false));
    let screen = app.render(Rect { x: 0, y: 0, width: 100, height: 30 });
    assert_eq!(table_header(&screen.content.body), vec!["ID", "Name", "Status", "Value"]);
    let before = *app.style_manager.theme();
    assert!(!app.handle_event(press('t')));
    assert_ne!(*app.style_manager.theme(), before);
    assert_eq!(app.current_view, View::Data);
    assert!(app.handle_event(press('q')));
    assert!(app.should_quit);
}
