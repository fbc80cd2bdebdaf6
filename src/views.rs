//! The four content views and the registry that looks them up by identifier.

use vstd::prelude::*;
use vstd::view::View as _;
use crate::app::View as ViewId;
use crate::pane::{cells_model, rows_model, spans_model, Row, Alignment, Body, BodyModel, Pane, PaneModel};
use crate::styles::{resolve, resolve_opt, Span, Style, StyleManager, StyleType, Theme};

verus! {

/// A script of lines: the text of each, and the intent that styles it, if any.
pub open spec fn script_lines(t: Theme, script: Seq<(Seq<char>, Option<StyleType>)>) -> Seq<
    (Seq<char>, Style),
> {
    script.map_values(|e: (Seq<char>, Option<StyleType>)| (e.0, resolve_opt(t, e.1)))
}

pub open spec fn styled(text: &str, st: StyleType) -> (Seq<char>, Option<StyleType>) {
    (text@, Some(st))
}

pub open spec fn blank() -> (Seq<char>, Option<StyleType>) {
    (""@, None)
}

/// A word-wrapped paragraph of the given lines in a box of the content style.
pub open spec fn text_pane(t: Theme, script: Seq<(Seq<char>, Option<StyleType>)>) -> PaneModel {
    PaneModel {
        title: None,
        block_style: resolve(t, StyleType::Content),
        body: BodyModel::Paragraph {
            lines: script_lines(t, script),
            alignment: Alignment::Left,
            wrap: true,
        },
    }
}

/// The title of each view.
pub open spec fn view_title(id: ViewId) -> Seq<char> {
    match id {
        ViewId::Dashboard => "Dashboard"@,
        ViewId::Data => "Data Browser"@,
        ViewId::Settings => "Settings"@,
        ViewId::Help => "Help"@,
    }
}

/// The one-line description of each view.
pub open spec fn view_description(id: ViewId) -> Seq<char> {
    match id {
        ViewId::Dashboard => "Overview and quick actions"@,
        ViewId::Data => "Browse and manage data"@,
        ViewId::Settings => "Application configuration"@,
        ViewId::Help => "Documentation and help"@,
    }
}

/// Every view has a non-empty title and a non-empty description.
pub proof fn lemma_view_labels_nonempty(id: ViewId)
    ensures
        view_title(id).len() > 0,
        view_description(id).len() > 0,
{
    reveal_strlit("Dashboard");
    reveal_strlit("Data Browser");
    reveal_strlit("Settings");
    reveal_strlit("Help");
    reveal_strlit("Overview and quick actions");
    reveal_strlit("Browse and manage data");
    reveal_strlit("Application configuration");
    reveal_strlit("Documentation and help");
}

/// A content view: what it shows, its title and its description.
pub trait View {
    /// The identifier of the view.
    spec fn spec_id(&self) -> ViewId;

    /// The theme the view resolves its styles under.
    spec fn spec_theme(&self) -> Theme;

    /// What the view shows.
    spec fn spec_render(&self) -> PaneModel;

    /// Render the view's content.
    fn render(&self) -> (r: Pane)
        ensures
            r.model() == self.spec_render(),
    ;

    /// Get the title of the view
    fn get_title(&self) -> (r: &str)
        ensures
            r@ == view_title(self.spec_id()),
    ;

    /// Get the description of the view
    fn get_description(&self) -> (r: &str)
        ensures
            r@ == view_description(self.spec_id()),
    ;
}

fn push_line(sm: &StyleManager, lines: &mut Vec<Span>, text: &str, st: Option<StyleType>)
    ensures
        spans_model(final(lines)@) == spans_model(old(lines)@).push(
            (text@, resolve_opt(sm@, st)),
        ),
{
    let span = Span { content: String::from_str(text), style: sm.get_style_opt(st) };
    lines.push(span);
    assert(spans_model(lines@) =~= spans_model(old(lines)@).push((text@, resolve_opt(sm@, st))));
}

pub open spec fn dashboard_script() -> Seq<(Seq<char>, Option<StyleType>)> {
    seq![
        styled("📊 Dashboard", StyleType::Title),
        blank(),
        styled("Welcome to the Ratatui TUI Prototype!", StyleType::Text),
        blank(),
        styled("Features:", StyleType::Subtitle),
        styled("• Modern TUI interface", StyleType::Text),
        styled("• Responsive design", StyleType::Text),
        styled("• Keyboard navigation", StyleType::Text),
        styled("• Multiple views", StyleType::Text),
        styled("• Styled components", StyleType::Text),
        blank(),
        styled("Quick Stats:", StyleType::Subtitle),
        styled("• Views: 4", StyleType::Info),
        styled("• Components: 4", StyleType::Info),
        styled("• Themes: 2", StyleType::Info),
        blank(),
        styled("Getting Started:", StyleType::Subtitle),
        styled("Use the number keys (1-4) to navigate between views:", StyleType::Text),
        styled("1 - Dashboard (current)", StyleType::Text),
        styled("2 - Data Browser", StyleType::Text),
        styled("3 - Settings", StyleType::Text),
        styled("4 - Help", StyleType::Text),
        styled("", StyleType::Text),
        styled("Press 'q' or Ctrl+C to quit.", StyleType::Text),
    ]
}

/// Dashboard view
#[derive(Debug, Clone, Copy)]
pub struct DashboardView {
    pub style_manager: StyleManager,
}

impl DashboardView {
    pub fn new(style_manager: StyleManager) -> (r: DashboardView)
        ensures
            r.style_manager == style_manager,
    {
        DashboardView { style_manager }
    }
}

impl View for DashboardView {
    open spec fn spec_id(&self) -> ViewId {
        ViewId::Dashboard
    }

    open spec fn spec_theme(&self) -> Theme {
        self.style_manager@
    }

    open spec fn spec_render(&self) -> PaneModel {
        text_pane(self.style_manager@, dashboard_script())
    }

    fn get_title(&self) -> (r: &str) {
        "Dashboard"
    }

    fn get_description(&self) -> (r: &str) {
        "Overview and quick actions"
    }

    fn render(&self) -> (r: Pane) {
        let sm = &self.style_manager;
        let mut lines: Vec<Span> = Vec::new();
        push_line(sm, &mut lines, "📊 Dashboard", Some(StyleType::Title));
        push_line(sm, &mut lines, "", None);
        push_line(sm, &mut lines, "Welcome to the Ratatui TUI Prototype!", Some(StyleType::Text));
        push_line(sm, &mut lines, "", None);
        push_line(sm, &mut lines, "Features:", Some(StyleType::Subtitle));
        push_line(sm, &mut lines, "• Modern TUI interface", Some(StyleType::Text));
        push_line(sm, &mut lines, "• Responsive design", Some(StyleType::Text));
        push_line(sm, &mut lines, "• Keyboard navigation", Some(StyleType::Text));
        push_line(sm, &mut lines, "• Multiple views", Some(StyleType::Text));
        push_line(sm, &mut lines, "• Styled components", Some(StyleType::Text));
        push_line(sm, &mut lines, "", None);
        push_line(sm, &mut lines, "Quick Stats:", Some(StyleType::Subtitle));
        push_line(sm, &mut lines, "• Views: 4", Some(StyleType::Info));
        push_line(sm, &mut lines, "• Components: 4", Some(StyleType::Info));
        push_line(sm, &mut lines, "• Themes: 2", Some(StyleType::Info));
        push_line(sm, &mut lines, "", None);
        push_line(sm, &mut lines, "Getting Started:", Some(StyleType::Subtitle));
        push_line(sm, &mut lines, "Use the number keys (1-4) to navigate between views:", Some(StyleType::Text));
        push_line(sm, &mut lines, "1 - Dashboard (current)", Some(StyleType::Text));
        push_line(sm, &mut lines, "2 - Data Browser", Some(StyleType::Text));
        push_line(sm, &mut lines, "3 - Settings", Some(StyleType::Text));
        push_line(sm, &mut lines, "4 - Help", Some(StyleType::Text));
        push_line(sm, &mut lines, "", Some(StyleType::Text));
        push_line(sm, &mut lines, "Press 'q' or Ctrl+C to quit.", Some(StyleType::Text));
        assert(spans_model(lines@) =~= script_lines(sm@, dashboard_script()));
        Pane {
            title: None,
            block_style: sm.get_style(StyleType::Content),
            body: Body::Paragraph { lines, alignment: Alignment::Left, wrap: true },
        }
    }
}

pub open spec fn settings_script() -> Seq<(Seq<char>, Option<StyleType>)> {
    seq![
        styled("⚙️ Settings", StyleType::Title),
        blank(),
        styled("Theme Settings:", StyleType::Subtitle),
        styled("• Light Theme (current)", StyleType::Text),
        styled("• Dark Theme", StyleType::Text),
        blank(),
        styled("Display Settings:", StyleType::Subtitle),
        styled("• Show borders", StyleType::Text),
        styled("• Show status bar", StyleType::Text),
        styled("• Show navigation", StyleType::Text),
        styled("• Compact mode", StyleType::Text),
        blank(),
        styled("Application Settings:", StyleType::Subtitle),
        styled("• Auto-save: Enabled", StyleType::Text),
        styled("• Notifications: Enabled", StyleType::Text),
        styled("• Debug mode: Disabled", StyleType::Text),
        styled("• Log level: Info", StyleType::Text),
        blank(),
        styled("Keyboard Shortcuts:", StyleType::Subtitle),
        styled("• 1-4 - Navigate views", StyleType::MutedText),
        styled("• q - Quit application", StyleType::MutedText),
        styled("• Ctrl+C - Force quit", StyleType::MutedText),
        styled("• Tab - Focus next element", StyleType::MutedText),
        styled("• Enter - Activate/Confirm", StyleType::MutedText),
    ]
}

/// Settings view: static grouped lists, read-only.
#[derive(Debug, Clone, Copy)]
pub struct SettingsView {
    pub style_manager: StyleManager,
}

impl SettingsView {
    pub fn new(style_manager: StyleManager) -> (r: SettingsView)
        ensures
            r.style_manager == style_manager,
    {
        SettingsView { style_manager }
    }
}

impl View for SettingsView {
    open spec fn spec_id(&self) -> ViewId {
        ViewId::Settings
    }

    open spec fn spec_theme(&self) -> Theme {
        self.style_manager@
    }

    open spec fn spec_render(&self) -> PaneModel {
        text_pane(self.style_manager@, settings_script())
    }

    fn get_title(&self) -> (r: &str) {
        "Settings"
    }

    fn get_description(&self) -> (r: &str) {
        "Application configuration"
    }

    fn render(&self) -> (r: Pane) {
        let sm = &self.style_manager;
        let mut lines: Vec<Span> = Vec::new();
        push_line(sm, &mut lines, "⚙️ Settings", Some(StyleType::Title));
        push_line(sm, &mut lines, "", None);
        push_line(sm, &mut lines, "Theme Settings:", Some(StyleType::Subtitle));
        push_line(sm, &mut lines, "• Light Theme (current)", Some(StyleType::Text));
        push_line(sm, &mut lines, "• Dark Theme", Some(StyleType::Text));
        push_line(sm, &mut lines, "", None);
        push_line(sm, &mut lines, "Display Settings:", Some(StyleType::Subtitle));
        push_line(sm, &mut lines, "• Show borders", Some(StyleType::Text));
        push_line(sm, &mut lines, "• Show status bar", Some(StyleType::Text));
        push_line(sm, &mut lines, "• Show navigation", Some(StyleType::Text));
        push_line(sm, &mut lines, "• Compact mode", Some(StyleType::Text));
        push_line(sm, &mut lines, "", None);
        push_line(sm, &mut lines, "Application Settings:", Some(StyleType::Subtitle));
        push_line(sm, &mut lines, "• Auto-save: Enabled", Some(StyleType::Text));
        push_line(sm, &mut lines, "• Notifications: Enabled", Some(StyleType::Text));
        push_line(sm, &mut lines, "• Debug mode: Disabled", Some(StyleType::Text));
        push_line(sm, &mut lines, "• Log level: Info", Some(StyleType::Text));
        push_line(sm, &mut lines, "", None);
        push_line(sm, &mut lines, "Keyboard Shortcuts:", Some(StyleType::Subtitle));
        push_line(sm, &mut lines, "• 1-4 - Navigate views", Some(StyleType::MutedText));
        push_line(sm, &mut lines, "• q - Quit application", Some(StyleType::MutedText));
        push_line(sm, &mut lines, "• Ctrl+C - Force quit", Some(StyleType::MutedText));
        push_line(sm, &mut lines, "• Tab - Focus next element", Some(StyleType::MutedText));
        push_line(sm, &mut lines, "• Enter - Activate/Confirm", Some(StyleType::MutedText));
        assert(spans_model(lines@) =~= script_lines(sm@, settings_script()));
        Pane {
            title: None,
            block_style: sm.get_style(StyleType::Content),
            body: Body::Paragraph { lines, alignment: Alignment::Left, wrap: true },
        }
    }
}

pub open spec fn help_script() -> Seq<(Seq<char>, Option<StyleType>)> {
    seq![
        styled("❓ Help & Documentation", StyleType::Title),
        blank(),
        styled("About Ratatui TUI:", StyleType::Subtitle),
        styled("This is a prototype Terminal User Interface built with Rust and Ratatui.", StyleType::Text),
        styled("It demonstrates modern TUI patterns and best practices.", StyleType::Text),
        blank(),
        styled("Navigation:", StyleType::Subtitle),
        styled("• 1 - Dashboard: Overview and quick actions", StyleType::Text),
        styled("• 2 - Data Browser: View and manage data", StyleType::Text),
        styled("• 3 - Settings: Configure application", StyleType::Text),
        styled("• 4 - Help: This documentation", StyleType::Text),
        blank(),
        styled("Keyboard Shortcuts:", StyleType::Subtitle),
        styled("• q or Ctrl+C - Quit application", StyleType::MutedText),
        styled("• 1-4 - Switch between views", StyleType::MutedText),
        styled("• Tab - Focus next element", StyleType::MutedText),
        styled("• Enter - Activate/Confirm", StyleType::MutedText),
        styled("• Escape - Cancel/Go back", StyleType::MutedText),
        blank(),
        styled("Features:", StyleType::Subtitle),
        styled("• Responsive design", StyleType::Text),
        styled("• Modern styling", StyleType::Text),
        styled("• Keyboard navigation", StyleType::Text),
        styled("• Multiple views", StyleType::Text),
        styled("• Component-based architecture", StyleType::Text),
        blank(),
        styled("Tips:", StyleType::Subtitle),
        styled("• Resize your terminal window to see responsive design", StyleType::Text),
        styled("• Use number keys for quick navigation", StyleType::Text),
        styled("• Check the status bar for current view information", StyleType::Text),
    ]
}

/// Help view: navigation reference and shortcut list.
#[derive(Debug, Clone, Copy)]
pub struct HelpView {
    pub style_manager: StyleManager,
}

impl HelpView {
    pub fn new(style_manager: StyleManager) -> (r: HelpView)
        ensures
            r.style_manager == style_manager,
    {
        HelpView { style_manager }
    }
}

impl View for HelpView {
    open spec fn spec_id(&self) -> ViewId {
        ViewId::Help
    }

    open spec fn spec_theme(&self) -> Theme {
        self.style_manager@
    }

    open spec fn spec_render(&self) -> PaneModel {
        text_pane(self.style_manager@, help_script())
    }

    fn get_title(&self) -> (r: &str) {
        "Help"
    }

    fn get_description(&self) -> (r: &str) {
        "Documentation and help"
    }

    fn render(&self) -> (r: Pane) {
        let sm = &self.style_manager;
        let mut lines: Vec<Span> = Vec::new();
        push_line(sm, &mut lines, "❓ Help & Documentation", Some(StyleType::Title));
        push_line(sm, &mut lines, "", None);
        push_line(sm, &mut lines, "About Ratatui TUI:", Some(StyleType::Subtitle));
        push_line(sm, &mut lines, "This is a prototype Terminal User Interface built with Rust and Ratatui.", Some(StyleType::Text));
        push_line(sm, &mut lines, "It demonstrates modern TUI patterns and best practices.", Some(StyleType::Text));
        push_line(sm, &mut lines, "", None);
        push_line(sm, &mut lines, "Navigation:", Some(StyleType::Subtitle));
        push_line(sm, &mut lines, "• 1 - Dashboard: Overview and quick actions", Some(StyleType::Text));
        push_line(sm, &mut lines, "• 2 - Data Browser: View and manage data", Some(StyleType::Text));
        push_line(sm, &mut lines, "• 3 - Settings: Configure application", Some(StyleType::Text));
        push_line(sm, &mut lines, "• 4 - Help: This documentation", Some(StyleType::Text));
        push_line(sm, &mut lines, "", None);
        push_line(sm, &mut lines, "Keyboard Shortcuts:", Some(StyleType::Subtitle));
        push_line(sm, &mut lines, "• q or Ctrl+C - Quit application", Some(StyleType::MutedText));
        push_line(sm, &mut lines, "• 1-4 - Switch between views", Some(StyleType::MutedText));
        push_line(sm, &mut lines, "• Tab - Focus next element", Some(StyleType::MutedText));
        push_line(sm, &mut lines, "• Enter - Activate/Confirm", Some(StyleType::MutedText));
        push_line(sm, &mut lines, "• Escape - Cancel/Go back", Some(StyleType::MutedText));
        push_line(sm, &mut lines, "", None);
        push_line(sm, &mut lines, "Features:", Some(StyleType::Subtitle));
        push_line(sm, &mut lines, "• Responsive design", Some(StyleType::Text));
        push_line(sm, &mut lines, "• Modern styling", Some(StyleType::Text));
        push_line(sm, &mut lines, "• Keyboard navigation", Some(StyleType::Text));
        push_line(sm, &mut lines, "• Multiple views", Some(StyleType::Text));
        push_line(sm, &mut lines, "• Component-based architecture", Some(StyleType::Text));
        push_line(sm, &mut lines, "", None);
        push_line(sm, &mut lines, "Tips:", Some(StyleType::Subtitle));
        push_line(sm, &mut lines, "• Resize your terminal window to see responsive design", Some(StyleType::Text));
        push_line(sm, &mut lines, "• Use number keys for quick navigation", Some(StyleType::Text));
        push_line(sm, &mut lines, "• Check the status bar for current view information", Some(StyleType::Text));
        assert(spans_model(lines@) =~= script_lines(sm@, help_script()));
        Pane {
            title: None,
            block_style: sm.get_style(StyleType::Content),
            body: Body::Paragraph { lines, alignment: Alignment::Left, wrap: true },
        }
    }
}

/// The fixed dataset of the data view: id, name, status and value.
pub open spec fn data_records() -> Seq<(Seq<char>, Seq<char>, Seq<char>, Seq<char>)> {
    seq![
        ("001"@, "Project Alpha"@, "Active"@, "$1,234"@),
        ("002"@, "Project Beta"@, "Pending"@, "$5,678"@),
        ("003"@, "Project Gamma"@, "Completed"@, "$9,012"@),
        ("004"@, "Project Delta"@, "Active"@, "$3,456"@),
        ("005"@, "Project Epsilon"@, "Cancelled"@, "$0"@),
    ]
}

/// The intent that styles a row of the given status.
pub open spec fn status_intent(status: Seq<char>) -> StyleType {
    if status == "Active"@ || status == "Completed"@ {
        StyleType::Success
    } else if status == "Pending"@ {
        StyleType::Warning
    } else if status == "Cancelled"@ {
        StyleType::Error
    } else {
        StyleType::Text
    }
}

/// A record as a table row, styled by its status.
pub open spec fn record_row(t: Theme, rec: (Seq<char>, Seq<char>, Seq<char>, Seq<char>)) -> (
    Seq<Seq<char>>,
    Style,
) {
    (seq![rec.0, rec.1, rec.2, rec.3], resolve(t, status_intent(rec.2)))
}

/// The column headings of the data table.
pub open spec fn data_header() -> Seq<Seq<char>> {
    seq!["ID"@, "Name"@, "Status"@, "Value"@]
}

/// The data view: a table with a button-styled header row, one row per record
/// and fixed column widths, in a box of the content style.
pub open spec fn data_pane(t: Theme) -> PaneModel {
    PaneModel {
        title: None,
        block_style: resolve(t, StyleType::Content),
        body: BodyModel::Table {
            header: (data_header(), resolve(t, StyleType::Button)),
            rows: data_records().map_values(|rec: (Seq<char>, Seq<char>, Seq<char>, Seq<char>)|
                record_row(t, rec)),
            widths: seq![15u16, 20u16, 10u16, 8u16],
        },
    }
}

/// The intent that styles a data row of the given status: success for active
/// and completed, warning for pending, error for cancelled, plain text else.
pub fn status_style_type(status: &str) -> (r: StyleType)
    ensures
        r == status_intent(status@),
{
    let s = String::from_str(status);
    if s == String::from_str("Active") || s == String::from_str("Completed") {
        StyleType::Success
    } else if s == String::from_str("Pending") {
        StyleType::Warning
    } else if s == String::from_str("Cancelled") {
        StyleType::Error
    } else {
        StyleType::Text
    }
}

fn four_cells(a: &str, b: &str, c: &str, d: &str) -> (r: Vec<String>)
    ensures
        cells_model(r@) == seq![a@, b@, c@, d@],
{
    let mut cells: Vec<String> = Vec::new();
    cells.push(String::from_str(a));
    cells.push(String::from_str(b));
    cells.push(String::from_str(c));
    cells.push(String::from_str(d));
    assert(cells_model(cells@) =~= seq![a@, b@, c@, d@]);
    cells
}

fn push_record(
    sm: &StyleManager,
    rows: &mut Vec<Row>,
    id: &str,
    name: &str,
    status: &str,
    value: &str,
)
    ensures
        rows_model(final(rows)@) == rows_model(old(rows)@).push(
            record_row(sm@, (id@, name@, status@, value@)),
        ),
{
    let style = sm.get_style(status_style_type(status));
    let row = Row { cells: four_cells(id, name, status, value), style };
    rows.push(row);
    assert(rows_model(rows@) =~= rows_model(old(rows)@).push(
        record_row(sm@, (id@, name@, status@, value@)),
    ));
}

/// Data browser view
#[derive(Debug, Clone, Copy)]
pub struct DataBrowserView {
    pub style_manager: StyleManager,
}

impl DataBrowserView {
    pub fn new(style_manager: StyleManager) -> (r: DataBrowserView)
        ensures
            r.style_manager == style_manager,
    {
        DataBrowserView { style_manager }
    }
}

impl View for DataBrowserView {
    open spec fn spec_id(&self) -> ViewId {
        ViewId::Data
    }

    open spec fn spec_theme(&self) -> Theme {
        self.style_manager@
    }

    open spec fn spec_render(&self) -> PaneModel {
        data_pane(self.style_manager@)
    }

    fn get_title(&self) -> (r: &str) {
        "Data Browser"
    }

    fn get_description(&self) -> (r: &str) {
        "Browse and manage data"
    }

    fn render(&self) -> (r: Pane) {
        let sm = &self.style_manager;
        let header = Row {
            cells: four_cells("ID", "Name", "Status", "Value"),
            style: sm.get_style(StyleType::Button),
        };
        let mut rows: Vec<Row> = Vec::new();
        push_record(sm, &mut rows, "001", "Project Alpha", "Active", "$1,234");
        push_record(sm, &mut rows, "002", "Project Beta", "Pending", "$5,678");
        push_record(sm, &mut rows, "003", "Project Gamma", "Completed", "$9,012");
        push_record(sm, &mut rows, "004", "Project Delta", "Active", "$3,456");
        push_record(sm, &mut rows, "005", "Project Epsilon", "Cancelled", "$0");
        let mut widths: Vec<u16> = Vec::new();
        widths.push(15);
        widths.push(20);
        widths.push(10);
        widths.push(8);
        let ghost t = sm@;
        assert(rows_model(rows@) =~= data_records().map_values(
            |rec: (Seq<char>, Seq<char>, Seq<char>, Seq<char>)| record_row(t, rec),
        ));
        assert(widths@ =~= seq![15u16, 20u16, 10u16, 8u16]);
        Pane {
            title: None,
            block_style: sm.get_style(StyleType::Content),
            body: Body::Table { header, rows, widths },
        }
    }
}

/// One of the four views, chosen by identifier.
#[derive(Debug, Clone, Copy)]
pub enum AnyView {
    Dashboard(DashboardView),
    Data(DataBrowserView),
    Settings(SettingsView),
    Help(HelpView),
}

/// What the view of the given identifier shows under a theme.
pub open spec fn view_pane(id: ViewId, t: Theme) -> PaneModel {
    match id {
        ViewId::Dashboard => text_pane(t, dashboard_script()),
        ViewId::Data => data_pane(t),
        ViewId::Settings => text_pane(t, settings_script()),
        ViewId::Help => text_pane(t, help_script()),
    }
}

impl View for AnyView {
    open spec fn spec_id(&self) -> ViewId {
        match self {
            AnyView::Dashboard(_) => ViewId::Dashboard,
            AnyView::Data(_) => ViewId::Data,
            AnyView::Settings(_) => ViewId::Settings,
            AnyView::Help(_) => ViewId::Help,
        }
    }

    open spec fn spec_theme(&self) -> Theme {
        match self {
            AnyView::Dashboard(v) => v.style_manager@,
            AnyView::Data(v) => v.style_manager@,
            AnyView::Settings(v) => v.style_manager@,
            AnyView::Help(v) => v.style_manager@,
        }
    }

    open spec fn spec_render(&self) -> PaneModel {
        view_pane(self.spec_id(), self.spec_theme())
    }

    fn get_title(&self) -> (r: &str) {
        match self {
            AnyView::Dashboard(v) => v.get_title(),
            AnyView::Data(v) => v.get_title(),
            AnyView::Settings(v) => v.get_title(),
            AnyView::Help(v) => v.get_title(),
        }
    }

    fn get_description(&self) -> (r: &str) {
        match self {
            AnyView::Dashboard(v) => v.get_description(),
            AnyView::Data(v) => v.get_description(),
            AnyView::Settings(v) => v.get_description(),
            AnyView::Help(v) => v.get_description(),
        }
    }

    fn render(&self) -> (r: Pane) {
        match self {
            AnyView::Dashboard(v) => v.render(),
            AnyView::Data(v) => v.render(),
            AnyView::Settings(v) => v.render(),
            AnyView::Help(v) => v.render(),
        }
    }
}

/// View manager for handling all views
#[derive(Debug, Clone, Copy)]
pub struct ViewManager {
    pub dashboard: DashboardView,
    pub data_browser: DataBrowserView,
    pub settings: SettingsView,
    pub help: HelpView,
}

impl ViewManager {
    /// All four views resolve their styles under the given theme.
    pub open spec fn themed(&self, t: Theme) -> bool {
        &&& self.dashboard.style_manager@ == t
        &&& self.data_browser.style_manager@ == t
        &&& self.settings.style_manager@ == t
        &&& self.help.style_manager@ == t
    }

    /// The theme of the view of the given identifier.
    pub open spec fn theme_of(&self, id: ViewId) -> Theme {
        match id {
            ViewId::Dashboard => self.dashboard.style_manager@,
            ViewId::Data => self.data_browser.style_manager@,
            ViewId::Settings => self.settings.style_manager@,
            ViewId::Help => self.help.style_manager@,
        }
    }

    pub fn new(style_manager: StyleManager) -> (r: ViewManager)
        ensures
            r.themed(style_manager@),
    {
        ViewManager {
            dashboard: DashboardView::new(style_manager),
            data_browser: DataBrowserView::new(style_manager),
            settings: SettingsView::new(style_manager),
            help: HelpView::new(style_manager),
        }
    }

    /// Give every view the same theme.
    pub fn set_theme(&mut self, theme: Theme)
        ensures
            final(self).themed(theme),
    {
        self.dashboard.style_manager.set_theme(theme);
        self.data_browser.style_manager.set_theme(theme);
        self.settings.style_manager.set_theme(theme);
        self.help.style_manager.set_theme(theme);
    }

    /// The view of the given identifier. The identifier set is closed, so the
    /// lookup is total.
    pub fn get_view(&self, id: ViewId) -> (r: AnyView)
        ensures
            r.spec_id() == id,
            r.spec_theme() == self.theme_of(id),
            r.spec_render() == view_pane(id, self.theme_of(id)),
    {
        match id {
            ViewId::Dashboard => AnyView::Dashboard(self.dashboard),
            ViewId::Data => AnyView::Data(self.data_browser),
            ViewId::Settings => AnyView::Settings(self.settings),
            ViewId::Help => AnyView::Help(self.help),
        }
    }
}

} // verus!
