use ratatui_tui::app::View as ViewId;
use ratatui_tui::pane::{Alignment, Body};
use ratatui_tui::styles::{Style, StyleManager, StyleType, Theme};
use ratatui_tui::views::{
    status_style_type, DashboardView, DataBrowserView, HelpView, SettingsView, View, ViewManager,
};

#[test]
fn test_dashboard_view_creation() {
    let style_manager = StyleManager::default();
    let dashboard = DashboardView::new(style_manager);
    assert_eq!(dashboard.get_title(), "Dashboard");
    assert_eq!(dashboard.get_description(), "Overview and quick actions");
}

#[test]
fn test_data_browser_view_creation() {
    let style_manager = StyleManager::default();
    let data_browser = DataBrowserView::new(style_manager);
    assert_eq!(data_browser.get_title(), "Data Browser");
    assert_eq!(data_browser.get_description(), "Browse and manage data");
}

#[test]
fn test_settings_view_creation() {
    let style_manager = StyleManager::default();
    let settings = SettingsView::new(style_manager);
    assert_eq!(settings.get_title(), "Settings");
    assert_eq!(settings.get_description(), "Application configuration");
}

#[test]
fn test_help_view_creation() {
    let style_manager = StyleManager::default();
    let help = HelpView::new(style_manager);
    assert_eq!(help.get_title(), "Help");
    assert_eq!(help.get_description(), "Documentation and help");
}

#[test]
fn test_view_manager_creation() {
    let style_manager = StyleManager::default();
    let view_manager = ViewManager::new(style_manager);
    assert_eq!(view_manager.dashboard.get_title(), "Dashboard");
    assert_eq!(view_manager.data_browser.get_title(), "Data Browser");
    assert_eq!(view_manager.settings.get_title(), "Settings");
    assert_eq!(view_manager.help.get_title(), "Help");
}

#[test]
fn lookup_is_total_and_labels_nonempty() {
    let vm = ViewManager::new(StyleManager::default());
    let table = [
        (ViewId::Dashboard, "Dashboard", "Overview and quick actions"),
        (ViewId::Data, "Data Browser", "Browse and manage data"),
        (ViewId::Settings, "Settings", "Application configuration"),
        (ViewId::Help, "Help", "Documentation and help"),
    ];
    for (id, title, desc) in table {
        let v = vm.get_view(id);
        assert_eq!(v.get_title(), title);
        assert_eq!(v.get_description(), desc);
        assert!(!v.get_title().is_empty());
        assert!(!v.get_description().is_empty());
    }
}

#[test]
fn status_lookup() {
    assert_eq!(status_style_type("Active"), StyleType::Success);
    assert_eq!(status_style_type("Completed"), StyleType::Success);
    assert_eq!(status_style_type("Pending"), StyleType::Warning);
    assert_eq!(status_style_type("Cancelled"), StyleType::Error);
    assert_eq!(status_style_type("Archived"), StyleType::Text);
    assert_eq!(status_style_type(""), StyleType::Text);
}

#[test]
fn data_table_rows_and_widths() {
    let sm = StyleManager::new(Theme::dark());
    let pane = DataBrowserView::new(sm).render();
    assert_eq!(pane.block_style, sm.get_style(StyleType::Content));
    match pane.body {
        Body::Table { header, rows, widths } => {
            assert_eq!(header.cells, vec!["ID", "Name", "Status", "Value"]);
            assert_eq!(header.style, sm.get_style(StyleType::Button));
            assert_eq!(rows.len(), 5);
            assert_eq!(rows[1].cells, vec!["002", "Project Beta", "Pending", "$5,678"]);
            assert_eq!(rows[1].style, sm.get_style(StyleType::Warning));
            assert_eq!(rows[2].style, sm.get_style(StyleType::Success));
            assert_eq!(rows[4].style, sm.get_style(StyleType::Error));
            assert_eq!(widths, vec![15, 20, 10, 8]);
        }
        _ => panic!("data view is a table"),
    }
}

#[test]
fn dashboard_lines_styled() {
    let sm = StyleManager::default();
    let pane = DashboardView::new(sm).render();
    match pane.body {
        Body::Paragraph { lines, alignment, wrap } => {
            assert_eq!(lines.len(), 24);
            assert_eq!(lines[0].content, "📊 Dashboard");
            assert_eq!(lines[0].style, sm.get_style(StyleType::Title));
            assert_eq!(lines[1].content, "");
            assert_eq!(lines[1].style, Style::plain());
            assert_eq!(lines[12].content, "• Views: 4");
            assert_eq!(lines[12].style, sm.get_style(StyleType::Info));
            assert_eq!(alignment, Alignment::Left);
            assert!(wrap);
        }
        _ => panic!("dashboard is a paragraph"),
    }
}

#[test]
fn settings_and_help_lengths() {
    let sm = StyleManager::default();
    match SettingsView::new(sm).render().body {
        Body::Paragraph { lines, .. } => {
            assert_eq!(lines.len(), 24);
            assert_eq!(lines[23].content, "• Enter - Activate/Confirm");
            assert_eq!(lines[23].style, sm.get_style(StyleType::MutedText));
        }
        _ => panic!("settings is a paragraph"),
    }
    match HelpView::new(sm).render().body {
        Body::Paragraph { lines, .. } => {
            assert_eq!(lines.len(), 30);
            assert_eq!(lines[26].content, "Tips:");
        }
        _ => panic!("help is a paragraph"),
    }
}
