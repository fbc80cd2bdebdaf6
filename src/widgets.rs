//! The screen partition and the four widgets that fill it: header, sidebar,
//! content pane and status bar.

use vstd::prelude::*;
use vstd::view::View as _;
use crate::app::{view_key, InputEvent};
use crate::pane::{spans_model, Alignment, Body, BodyModel, Pane, PaneModel};
use crate::styles::{plain_style, resolve, Span, Style, StyleManager, StyleType, Theme};
use crate::views::{view_pane, AnyView, View};

verus! {

/// A rectangle of terminal cells.
#[derive(Debug, Clone, Copy, PartialEq, Eq, Structural)]
pub struct Rect {
    pub x: u16,
    pub y: u16,
    pub width: u16,
    pub height: u16,
}

impl Rect {
    /// The rectangle lies within the coordinate range of the terminal grid.
    pub open spec fn wf(&self) -> bool {
        self.x + self.width <= u16::MAX && self.y + self.height <= u16::MAX
    }

    /// Whether the cell at column `px`, row `py` lies in the rectangle.
    pub open spec fn contains(&self, px: int, py: int) -> bool {
        self.x <= px < self.x + self.width && self.y <= py < self.y + self.height
    }
}

/// Height of the header region.
pub const HEADER_HEIGHT: u16 = 3;

/// Height of the status bar.
pub const STATUS_HEIGHT: u16 = 1;

/// Width of the sidebar.
pub const SIDEBAR_WIDTH: u16 = 20;

/// The four regions of one frame.
#[derive(Debug, Clone, Copy, PartialEq, Eq, Structural)]
pub struct ScreenLayout {
    pub header: Rect,
    pub sidebar: Rect,
    pub content: Rect,
    pub status: Rect,
}

pub open spec fn min_int(a: int, b: int) -> int {
    if a <= b {
        a
    } else {
        b
    }
}

/// The partition of a frame: a header of three rows, a status bar of one row,
/// and between them the body, split into a sidebar of twenty columns and the
/// content. On a smaller frame the fixed regions take what there is, header
/// first, and the body keeps the rest (possibly nothing).
pub open spec fn layout_of(area: Rect) -> ScreenLayout {
    let header_h = min_int(HEADER_HEIGHT as int, area.height as int);
    let status_h = min_int(STATUS_HEIGHT as int, area.height - header_h);
    let body_h = area.height - header_h - status_h;
    let side_w = min_int(SIDEBAR_WIDTH as int, area.width as int);
    let body_y = area.y + header_h;
    ScreenLayout {
        header: Rect { x: area.x, y: area.y, width: area.width, height: header_h as u16 },
        sidebar: Rect { x: area.x, y: body_y as u16, width: side_w as u16, height: body_h as u16 },
        content: Rect {
            x: (area.x + side_w) as u16,
            y: body_y as u16,
            width: (area.width - side_w) as u16,
            height: body_h as u16,
        },
        status: Rect {
            x: area.x,
            y: (body_y + body_h) as u16,
            width: area.width,
            height: status_h as u16,
        },
    }
}

/// Split a frame into header, sidebar, content and status regions.
pub fn compute_layout(area: Rect) -> (r: ScreenLayout)
    requires
        area.wf(),
    ensures
        r == layout_of(area),
{
    let header_h: u16 = if area.height < HEADER_HEIGHT { area.height } else { HEADER_HEIGHT };
    let rest: u16 = area.height - header_h;
    let status_h: u16 = if rest < STATUS_HEIGHT { rest } else { STATUS_HEIGHT };
    let body_h: u16 = rest - status_h;
    let side_w: u16 = if area.width < SIDEBAR_WIDTH { area.width } else { SIDEBAR_WIDTH };
    let body_y: u16 = area.y + header_h;
    ScreenLayout {
        header: Rect { x: area.x, y: area.y, width: area.width, height: header_h },
        sidebar: Rect { x: area.x, y: body_y, width: side_w, height: body_h },
        content: Rect { x: area.x + side_w, y: body_y, width: area.width - side_w, height: body_h },
        status: Rect { x: area.x, y: body_y + body_h, width: area.width, height: status_h },
    }
}

/// The partition gives the header three rows, the status bar one row and the
/// sidebar twenty columns on any frame of at least four rows and twenty-one
/// columns; on every frame the four regions are pairwise disjoint and together
/// cover exactly the frame.
pub proof fn lemma_layout_partition(area: Rect)
    requires
        area.wf(),
    ensures
        area.height >= 4 && area.width >= 21 ==> {
            &&& layout_of(area).header.height == 3
            &&& layout_of(area).status.height == 1
            &&& layout_of(area).sidebar.width == 20
        },
        forall|px: int, py: int|
            #![trigger area.contains(px, py)]
            area.contains(px, py) <==> (layout_of(area).header.contains(px, py)
                || layout_of(area).sidebar.contains(px, py) || layout_of(area).content.contains(
                px,
                py,
            ) || layout_of(area).status.contains(px, py)),
        forall|px: int, py: int|
            #![trigger layout_of(area).header.contains(px, py)]
            layout_of(area).header.contains(px, py) ==> !layout_of(area).sidebar.contains(px, py)
                && !layout_of(area).content.contains(px, py) && !layout_of(area).status.contains(
                px,
                py,
            ),
        forall|px: int, py: int|
            #![trigger layout_of(area).sidebar.contains(px, py)]
            layout_of(area).sidebar.contains(px, py) ==> !layout_of(area).content.contains(px, py)
                && !layout_of(area).status.contains(px, py),
        forall|px: int, py: int|
            #![trigger layout_of(area).content.contains(px, py)]
            layout_of(area).content.contains(px, py) ==> !layout_of(area).status.contains(px, py),
{
}

/// A screen widget: what it shows in a region, and whether it takes an event.
pub trait Widget {
    /// What the widget shows in the given region.
    spec fn spec_render(&self, area: Rect) -> PaneModel;

    /// Whether the widget takes the given event.
    spec fn spec_consumes(&self, event: InputEvent) -> bool;

    /// Render the widget to the given area
    fn render(&self, area: Rect) -> (r: Pane)
        ensures
            r.model() == self.spec_render(area),
    ;

    /// Handle events for the widget; a consumed event leaves it for nobody else.
    fn handle_event(&mut self, event: InputEvent) -> (r: bool)
        ensures
            r == old(self).spec_consumes(event),
    ;
}

/// Header widget for the application
#[derive(Debug, Clone)]
pub struct HeaderWidget {
    pub title: String,
    pub style_manager: StyleManager,
}

impl HeaderWidget {
    pub fn new(title: String, style_manager: StyleManager) -> (r: HeaderWidget)
        ensures
            r.title == title,
            r.style_manager == style_manager,
    {
        HeaderWidget { title, style_manager }
    }
}

impl Widget for HeaderWidget {
    /// The title in a box of the header style.
    open spec fn spec_render(&self, area: Rect) -> PaneModel {
        PaneModel {
            title: Some(self.title@),
            block_style: resolve(self.style_manager@, StyleType::Header),
            body: BodyModel::Empty,
        }
    }

    open spec fn spec_consumes(&self, event: InputEvent) -> bool {
        false
    }

    fn render(&self, area: Rect) -> (r: Pane) {
        Pane {
            title: Some(self.title.clone()),
            block_style: self.style_manager.get_style(StyleType::Header),
            body: Body::Empty,
        }
    }

    fn handle_event(&mut self, event: InputEvent) -> (r: bool) {
        false
    }
}

/// One navigation entry of the sidebar.
#[derive(Debug, Clone)]
pub struct SidebarItem {
    pub id: String,
    pub label: String,
    pub key: String,
}

impl SidebarItem {
    pub open spec fn model(&self) -> (Seq<char>, Seq<char>, Seq<char>) {
        (self.id@, self.label@, self.key@)
    }
}

pub open spec fn items_model(items: Seq<SidebarItem>) -> Seq<(Seq<char>, Seq<char>, Seq<char>)> {
    items.map_values(|it: SidebarItem| it.model())
}

/// The navigation entries: id, label and key of each view.
pub open spec fn default_items() -> Seq<(Seq<char>, Seq<char>, Seq<char>)> {
    seq![
        ("dashboard"@, "📊 Dashboard"@, "1"@),
        ("data"@, "📁 Data Browser"@, "2"@),
        ("settings"@, "⚙️ Settings"@, "3"@),
        ("help"@, "❓ Help"@, "4"@),
    ]
}

/// Columns that the separator rule leaves free in the sidebar.
pub const RULE_MARGIN: u16 = 4;

/// The separator rule for a sidebar of the given width: the width less the
/// margin, and empty where the sidebar is narrower than the margin.
pub open spec fn rule_line(width: u16) -> Seq<char> {
    let n = if width >= RULE_MARGIN { width - RULE_MARGIN } else { 0 };
    Seq::new(n as nat, |i: int| '─')
}

/// A navigation entry as a line: key and label, in the active button style if
/// its id is the current view, in the button style otherwise.
pub open spec fn entry_line(t: Theme, current: Seq<char>, it: (Seq<char>, Seq<char>, Seq<char>)) -> (
    Seq<char>,
    Style,
) {
    (
        it.2 + " "@ + it.1,
        resolve(t, if it.0 == current { StyleType::ButtonActive } else { StyleType::Button }),
    )
}

pub open spec fn entry_lines(
    t: Theme,
    current: Seq<char>,
    items: Seq<(Seq<char>, Seq<char>, Seq<char>)>,
) -> Seq<(Seq<char>, Style)> {
    items.map_values(|it: (Seq<char>, Seq<char>, Seq<char>)| entry_line(t, current, it))
}

/// The sidebar's lines: a heading, the navigation entries, a rule and the
/// shortcuts legend.
pub open spec fn sidebar_lines(
    t: Theme,
    current: Seq<char>,
    items: Seq<(Seq<char>, Seq<char>, Seq<char>)>,
    width: u16,
) -> Seq<(Seq<char>, Style)> {
    seq![("Navigation"@, resolve(t, StyleType::Subtitle)), (""@, plain_style())] + entry_lines(
        t,
        current,
        items,
    ) + seq![
        (""@, plain_style()),
        (rule_line(width), plain_style()),
        (""@, plain_style()),
        ("Shortcuts:"@, resolve(t, StyleType::MutedText)),
        ("q - Quit"@, resolve(t, StyleType::MutedText)),
        ("1-4 - Navigate"@, resolve(t, StyleType::MutedText)),
        ("Ctrl+C - Quit"@, resolve(t, StyleType::MutedText)),
    ]
}

fn push_span(lines: &mut Vec<Span>, text: String, style: Style)
    ensures
        spans_model(final(lines)@) == spans_model(old(lines)@).push((text@, style)),
{
    lines.push(Span { content: text, style });
    assert(spans_model(lines@) =~= spans_model(old(lines)@).push((text@, style)));
}

/// The separator rule for a sidebar of the given width.
pub fn rule_for_width(width: u16) -> (r: String)
    ensures
        r@ == rule_line(width),
{
    let n: u16 = if width >= RULE_MARGIN { width - RULE_MARGIN } else { 0 };
    let mut rule = String::new();
    let mut k: u16 = 0;
    proof {
        reveal_strlit("─");
    }
    while k < n
        invariant
            k <= n,
            n == (if width >= RULE_MARGIN { width - RULE_MARGIN } else { 0 }),
            rule@ == Seq::new(k as nat, |i: int| '─'),
            "─"@ == seq!['─'],
        decreases n - k,
    {
        rule.append("─");
        k = k + 1;
        assert(rule@ =~= Seq::new(k as nat, |i: int| '─'));
    }
    rule
}

/// Sidebar widget for navigation
#[derive(Debug, Clone)]
pub struct SidebarWidget {
    pub items: Vec<SidebarItem>,
    pub current_view: String,
    pub style_manager: StyleManager,
}

fn sidebar_item(id: &str, label: &str, key: &str) -> (r: SidebarItem)
    ensures
        r.model() == (id@, label@, key@),
{
    SidebarItem {
        id: String::from_str(id),
        label: String::from_str(label),
        key: String::from_str(key),
    }
}

impl SidebarWidget {
    pub fn new(style_manager: StyleManager) -> (r: SidebarWidget)
        ensures
            items_model(r.items@) == default_items(),
            r.current_view@ == view_key(crate::app::View::Dashboard),
            r.style_manager == style_manager,
    {
        let mut items: Vec<SidebarItem> = Vec::new();
        items.push(sidebar_item("dashboard", "📊 Dashboard", "1"));
        items.push(sidebar_item("data", "📁 Data Browser", "2"));
        items.push(sidebar_item("settings", "⚙️ Settings", "3"));
        items.push(sidebar_item("help", "❓ Help", "4"));
        assert(items_model(items@) =~= default_items());
        SidebarWidget { items, current_view: String::from_str("dashboard"), style_manager }
    }

    pub fn set_current_view(&mut self, view: String)
        ensures
            final(self).current_view == view,
            final(self).items == old(self).items,
            final(self).style_manager == old(self).style_manager,
    {
        self.current_view = view;
    }
}

impl Widget for SidebarWidget {
    /// The sidebar's lines as a list in a box of the sidebar style.
    open spec fn spec_render(&self, area: Rect) -> PaneModel {
        PaneModel {
            title: None,
            block_style: resolve(self.style_manager@, StyleType::Sidebar),
            body: BodyModel::List {
                items: sidebar_lines(
                    self.style_manager@,
                    self.current_view@,
                    items_model(self.items@),
                    area.width,
                ),
            },
        }
    }

    open spec fn spec_consumes(&self, event: InputEvent) -> bool {
        false
    }

    fn render(&self, area: Rect) -> (r: Pane) {
        let sm = &self.style_manager;
        let ghost t = sm@;
        let ghost cur = self.current_view@;
        let ghost its = items_model(self.items@);
        let mut lines: Vec<Span> = Vec::new();
        push_span(&mut lines, String::from_str("Navigation"), sm.get_style(StyleType::Subtitle));
        push_span(&mut lines, String::from_str(""), Style::plain());
        let ghost head = spans_model(lines@);
        assert(head =~= seq![("Navigation"@, resolve(t, StyleType::Subtitle)), (""@, plain_style())]);
        let mut i: usize = 0;
        while i < self.items.len()
            invariant
                i <= self.items@.len(),
                sm@ == t,
                self.current_view@ == cur,
                items_model(self.items@) == its,
                spans_model(lines@) == head + entry_lines(t, cur, its.take(i as int)),
            decreases self.items@.len() - i,
        {
            let item = &self.items[i];
            let is_active = item.id == self.current_view;
            let style_type = if is_active {
                StyleType::ButtonActive
            } else {
                StyleType::Button
            };
            let text = item.key.clone().concat(" ").concat(item.label.as_str());
            let ghost before = spans_model(lines@);
            push_span(&mut lines, text, sm.get_style(style_type));
            assert(its[i as int] == item.model());
            assert(entry_lines(t, cur, its.take(i + 1)) =~= entry_lines(t, cur, its.take(i as int)).push(
                entry_line(t, cur, its[i as int]),
            ));
            i = i + 1;
        }
        assert(its.take(i as int) =~= its);
        push_span(&mut lines, String::from_str(""), Style::plain());
        push_span(&mut lines, rule_for_width(area.width), Style::plain());
        push_span(&mut lines, String::from_str(""), Style::plain());
        push_span(&mut lines, String::from_str("Shortcuts:"), sm.get_style(StyleType::MutedText));
        push_span(&mut lines, String::from_str("q - Quit"), sm.get_style(StyleType::MutedText));
        push_span(&mut lines, String::from_str("1-4 - Navigate"), sm.get_style(StyleType::MutedText));
        push_span(&mut lines, String::from_str("Ctrl+C - Quit"), sm.get_style(StyleType::MutedText));
        assert(spans_model(lines@) =~= sidebar_lines(t, cur, its, area.width));
        Pane {
            title: None,
            block_style: sm.get_style(StyleType::Sidebar),
            body: Body::List { items: lines },
        }
    }

    fn handle_event(&mut self, event: InputEvent) -> (r: bool) {
        false
    }
}

/// Content widget for the main content area: the current view's content once
/// one is set, and otherwise its text.
#[derive(Debug, Clone)]
pub struct ContentWidget {
    pub content: String,
    pub view: Option<AnyView>,
    pub style_manager: StyleManager,
}

impl ContentWidget {
    pub fn new(style_manager: StyleManager) -> (r: ContentWidget)
        ensures
            r.content@ == Seq::<char>::empty(),
            r.view.is_none(),
            r.style_manager == style_manager,
    {
        ContentWidget { content: String::new(), view: None, style_manager }
    }

    pub fn set_content(&mut self, content: String)
        ensures
            final(self).content == content,
            final(self).view == old(self).view,
            final(self).style_manager == old(self).style_manager,
    {
        self.content = content;
    }

    /// Show the given view's content.
    pub fn set_view(&mut self, view: AnyView)
        ensures
            final(self).view == Some(view),
            final(self).content == old(self).content,
            final(self).style_manager == old(self).style_manager,
    {
        self.view = Some(view);
    }
}

impl Widget for ContentWidget {
    /// The view's content, or the text word-wrapped in a box of the content style.
    open spec fn spec_render(&self, area: Rect) -> PaneModel {
        match self.view {
            Some(v) => v.spec_render(),
            None => PaneModel {
                title: None,
                block_style: resolve(self.style_manager@, StyleType::Content),
                body: BodyModel::Paragraph {
                    lines: seq![(self.content@, plain_style())],
                    alignment: Alignment::Left,
                    wrap: true,
                },
            },
        }
    }

    open spec fn spec_consumes(&self, event: InputEvent) -> bool {
        false
    }

    fn render(&self, area: Rect) -> (r: Pane) {
        match &self.view {
            Some(v) => v.render(),
            None => {
                let mut lines: Vec<Span> = Vec::new();
                push_span(&mut lines, self.content.clone(), Style::plain());
                assert(spans_model(lines@) =~= seq![(self.content@, plain_style())]);
                Pane {
                    title: None,
                    block_style: self.style_manager.get_style(StyleType::Content),
                    body: Body::Paragraph { lines, alignment: Alignment::Left, wrap: true },
                }
            },
        }
    }

    fn handle_event(&mut self, event: InputEvent) -> (r: bool) {
        false
    }
}

/// Status bar widget
#[derive(Debug, Clone)]
pub struct StatusBarWidget {
    pub status_text: String,
    pub style_manager: StyleManager,
}

impl StatusBarWidget {
    pub fn new(style_manager: StyleManager) -> (r: StatusBarWidget)
        ensures
            r.status_text@ == Seq::<char>::empty(),
            r.style_manager == style_manager,
    {
        StatusBarWidget { status_text: String::new(), style_manager }
    }

    pub fn set_status(&mut self, status: String)
        ensures
            final(self).status_text == status,
            final(self).style_manager == old(self).style_manager,
    {
        self.status_text = status;
    }
}

impl Widget for StatusBarWidget {
    /// The text, centered, in a box of the status bar style.
    open spec fn spec_render(&self, area: Rect) -> PaneModel {
        PaneModel {
            title: None,
            block_style: resolve(self.style_manager@, StyleType::StatusBar),
            body: BodyModel::Paragraph {
                lines: seq![(self.status_text@, plain_style())],
                alignment: Alignment::Center,
                wrap: false,
            },
        }
    }

    open spec fn spec_consumes(&self, event: InputEvent) -> bool {
        false
    }

    fn render(&self, area: Rect) -> (r: Pane) {
        let mut lines: Vec<Span> = Vec::new();
        push_span(&mut lines, self.status_text.clone(), Style::plain());
        assert(spans_model(lines@) =~= seq![(self.status_text@, plain_style())]);
        Pane {
            title: None,
            block_style: self.style_manager.get_style(StyleType::StatusBar),
            body: Body::Paragraph { lines, alignment: Alignment::Center, wrap: false },
        }
    }

    fn handle_event(&mut self, event: InputEvent) -> (r: bool) {
        false
    }
}

/// One frame: the partition and what each region shows.
#[derive(Debug, Clone, PartialEq, Eq)]
pub struct Screen {
    pub layout: ScreenLayout,
    pub header: Pane,
    pub sidebar: Pane,
    pub content: Pane,
    pub status_bar: Pane,
}

/// Widget manager for handling all widgets
#[derive(Debug, Clone)]
pub struct WidgetManager {
    pub header: HeaderWidget,
    pub sidebar: SidebarWidget,
    pub content: ContentWidget,
    pub status_bar: StatusBarWidget,
}

impl WidgetManager {
    /// All four widgets resolve their styles under the given theme.
    pub open spec fn themed(&self, t: Theme) -> bool {
        &&& self.header.style_manager@ == t
        &&& self.sidebar.style_manager@ == t
        &&& self.content.style_manager@ == t
        &&& self.status_bar.style_manager@ == t
    }

    pub fn new(style_manager: StyleManager) -> (r: WidgetManager)
        ensures
            r.header.title@ == "Ratatui TUI"@,
            items_model(r.sidebar.items@) == default_items(),
            r.sidebar.current_view@ == view_key(crate::app::View::Dashboard),
            r.content.content@ == Seq::<char>::empty(),
            r.content.view.is_none(),
            r.status_bar.status_text@ == Seq::<char>::empty(),
            r.themed(style_manager@),
    {
        WidgetManager {
            header: HeaderWidget::new(String::from_str("Ratatui TUI"), style_manager),
            sidebar: SidebarWidget::new(style_manager),
            content: ContentWidget::new(style_manager),
            status_bar: StatusBarWidget::new(style_manager),
        }
    }

    /// Give every widget the same theme; nothing else changes.
    pub fn set_theme(&mut self, theme: Theme)
        ensures
            final(self).themed(theme),
            final(self).header.title == old(self).header.title,
            final(self).sidebar.items == old(self).sidebar.items,
            final(self).sidebar.current_view == old(self).sidebar.current_view,
            final(self).content.content == old(self).content.content,
            final(self).content.view == old(self).content.view,
            final(self).status_bar.status_text == old(self).status_bar.status_text,
    {
        self.header.style_manager.set_theme(theme);
        self.sidebar.style_manager.set_theme(theme);
        self.content.style_manager.set_theme(theme);
        self.status_bar.style_manager.set_theme(theme);
    }

    /// Partition the frame and render each widget into its region.
    pub fn render_all(&self, area: Rect) -> (r: Screen)
        requires
            area.wf(),
        ensures
            r.layout == layout_of(area),
            r.header.model() == self.header.spec_render(r.layout.header),
            r.sidebar.model() == self.sidebar.spec_render(r.layout.sidebar),
            r.content.model() == self.content.spec_render(r.layout.content),
            r.status_bar.model() == self.status_bar.spec_render(r.layout.status),
    {
        let layout = compute_layout(area);
        let header = self.header.render(layout.header);
        let sidebar = self.sidebar.render(layout.sidebar);
        let content = self.content.render(layout.content);
        let status_bar = self.status_bar.render(layout.status);
        Screen { layout, header, sidebar, content, status_bar }
    }
}

} // verus!
