use ratatui_tui::app::View as ViewId;
use ratatui_tui::pane::{Alignment, Body};
use ratatui_tui::styles::{StyleManager, StyleType};
use ratatui_tui::views::ViewManager;
use ratatui_tui::widgets::{
    compute_layout, rule_for_width, ContentWidget, HeaderWidget, Rect, SidebarWidget,
    StatusBarWidget, Widget, WidgetManager,
};

#[test]
fn test_header_widget_creation() {
    let style_manager = StyleManager::default();
    let header = HeaderWidget::new("Test".to_string(), style_manager);
    assert_eq!(header.title, "Test");
}

#[test]
fn test_sidebar_widget_creation() {
    let style_manager = StyleManager::default();
    let sidebar = SidebarWidget::new(style_manager);
    assert_eq!(sidebar.items.len(), 4);
    assert_eq!(sidebar.current_view, "dashboard");
}

#[test]
fn test_content_widget_creation() {
    let style_manager = StyleManager::default();
    let content = ContentWidget::new(style_manager);
    assert_eq!(content.content, "");
}

#[test]
fn test_status_bar_widget_creation() {
    let style_manager = StyleManager::default();
    let status_bar = StatusBarWidget::new(style_manager);
    assert_eq!(status_bar.status_text, "");
}

#[test]
fn test_widget_manager_creation() {
    let style_manager = StyleManager::default();
    let widget_manager = WidgetManager::new(style_manager);
    assert_eq!(widget_manager.header.title, "Ratatui TUI");
}

#[test]
fn layout_of_standard_terminal() {
    let l = compute_layout(Rect { x: 0, y: 0, width: 80, height: 24 });
    assert_eq!(l.header, Rect { x: 0, y: 0, width: 80, height: 3 });
    assert_eq!(l.sidebar, Rect { x: 0, y: 3, width: 20, height: 20 });
    assert_eq!(l.content, Rect { x: 20, y: 3, width: 60, height: 20 });
    assert_eq!(l.status, Rect { x: 0, y: 23, width: 80, height: 1 });
}

#[test]
fn layout_of_smallest_full_terminal() {
    let l = compute_layout(Rect { x: 2, y: 1, width: 21, height: 4 });
    assert_eq!(l.header, Rect { x: 2, y: 1, width: 21, height: 3 });
    assert_eq!(l.sidebar, Rect { x: 2, y: 4, width: 20, height: 0 });
    assert_eq!(l.content, Rect { x: 22, y: 4, width: 1, height: 0 });
    assert_eq!(l.status, Rect { x: 2, y: 4, width: 21, height: 1 });
}

#[test]
fn layout_of_tiny_terminal_clamps() {
    let l = compute_layout(Rect { x: 0, y: 0, width: 10, height: 2 });
    assert_eq!(l.header.height, 2);
    assert_eq!(l.status.height, 0);
    assert_eq!(l.sidebar.width, 10);
    assert_eq!(l.content.width, 0);
}

#[test]
fn rule_clamps_on_narrow_sidebar() {
    assert_eq!(rule_for_width(2), "");
    assert_eq!(rule_for_width(4), "");
    assert_eq!(rule_for_width(7), "───");
    assert_eq!(rule_for_width(20).chars().count(), 16);
}

#[test]
fn sidebar_renders_entries_and_rule() {
    let sm = StyleManager::default();
    let mut sidebar = SidebarWidget::new(sm);
    sidebar.set_current_view("data".to_string());
    let pane = sidebar.render(Rect { x: 0, y: 3, width: 3, height: 20 });
    assert_eq!(pane.block_style, sm.get_style(StyleType::Sidebar));
    match pane.body {
        Body::List { items } => {
            assert_eq!(items.len(), 13);
            assert_eq!(items[0].content, "Navigation");
            assert_eq!(items[3].content, "2 📁 Data Browser");
            assert_eq!(items[3].style, sm.get_style(StyleType::ButtonActive));
            assert_eq!(items[4].style, sm.get_style(StyleType::Button));
            assert_eq!(items[7].content, "");
            assert_eq!(items[12].content, "Ctrl+C - Quit");
        }
        _ => panic!("sidebar is a list"),
    }
}

#[test]
fn widgets_consume_no_event() {
    let sm = StyleManager::default();
    let mut header = HeaderWidget::new("T".to_string(), sm);
    assert!(!header.handle_event(ratatui_tui::app::InputEvent::Other));
}

#[test]
fn status_and_content_panes() {
    let sm = StyleManager::default();
    let mut status = StatusBarWidget::new(sm);
    status.set_status("hello".to_string());
    let pane = status.render(Rect { x: 0, y: 0, width: 10, height: 1 });
    match pane.body {
        Body::Paragraph { lines, alignment, wrap } => {
            assert_eq!(lines[0].content, "hello");
            assert_eq!(alignment, Alignment::Center);
            assert!(!wrap);
        }
        _ => panic!("status is a paragraph"),
    }
    let mut content = ContentWidget::new(sm);
    content.set_content("text".to_string());
    let vm = ViewManager::new(sm);
    content.set_view(vm.get_view(ViewId::Data));
    match content.render(Rect { x: 0, y: 0, width: 10, height: 10 }).body {
        Body::Table { rows, .. } => assert_eq!(rows.len(), 5),
        _ => panic!("content shows the data table"),
    }
}
