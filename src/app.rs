//! The navigation state machine: current view, quit flag and theme, driven by
//! key presses, with every change pushed into the widgets as one update.

use vstd::prelude::*;
use vstd::view::View as _;
use crate::styles::{light_theme, toggled, StyleManager};
use crate::views::{View as _, ViewManager};
use crate::pane::{Alignment, BodyModel};
use crate::styles::{plain_style, resolve, StyleType};
use crate::views::view_pane;
use crate::widgets::{entry_line, sidebar_lines, items_model, default_items, layout_of, Rect, Screen, Widget, WidgetManager};

verus! {

/// The four application screens.
#[derive(Debug, Clone, Copy, PartialEq, Eq, Structural)]
pub enum View {
    Dashboard,
    Data,
    Settings,
    Help,
}

/// The identifier of a view, as the sidebar names it.
pub open spec fn view_key(v: View) -> Seq<char> {
    match v {
        View::Dashboard => "dashboard"@,
        View::Data => "data"@,
        View::Settings => "settings"@,
        View::Help => "help"@,
    }
}

impl View {
    pub fn as_str(&self) -> (r: &'static str)
        ensures
            r@ == view_key(*self),
    {
        match self {
            View::Dashboard => "dashboard",
            View::Data => "data",
            View::Settings => "settings",
            View::Help => "help",
        }
    }
}

/// A key as the navigation reads it: a character, Escape, or any other key.
#[derive(Debug, Clone, Copy, PartialEq, Eq, Structural)]
pub enum Key {
    Char(char),
    Esc,
    Other,
}

/// Whether a key event reports a press, a repeat or a release.
#[derive(Debug, Clone, Copy, PartialEq, Eq, Structural)]
pub enum KeyKind {
    Press,
    Repeat,
    Release,
}

/// An input event: a key event, or anything else the input source yields.
#[derive(Debug, Clone, Copy, PartialEq, Eq, Structural)]
pub enum InputEvent {
    Key { code: Key, kind: KeyKind },
    Other,
}

/// The view and quit flag after a key, as the navigation table gives them:
/// 'q' and Escape quit, '1' to '4' select a view, any other key changes neither.
pub open spec fn transition(v: View, quit: bool, key: Key) -> (View, bool) {
    match key {
        Key::Esc => (v, true),
        Key::Char(c) => if c == 'q' {
            (v, true)
        } else if c == '1' {
            (View::Dashboard, quit)
        } else if c == '2' {
            (View::Data, quit)
        } else if c == '3' {
            (View::Settings, quit)
        } else if c == '4' {
            (View::Help, quit)
        } else {
            (v, quit)
        },
        Key::Other => (v, quit),
    }
}

/// The keys the navigation table names.
pub open spec fn is_bound(key: Key) -> bool {
    match key {
        Key::Esc => true,
        Key::Char(c) => c == 'q' || c == '1' || c == '2' || c == '3' || c == '4' || c == 't',
        Key::Other => false,
    }
}

pub open spec fn is_quit_key(key: Key) -> bool {
    key == Key::Esc || key == Key::Char('q')
}

/// The status bar's summary for a view.
pub open spec fn status_line(v: View) -> Seq<char> {
    "View: "@ + view_key(v) + " | Press 'q' to quit | 1-4 for navigation | 't' to toggle theme"@
}

/// The text the content pane holds for a view.
pub open spec fn loaded_text(v: View) -> Seq<char> {
    match v {
        View::Dashboard => "Dashboard content loaded..."@,
        View::Data => "Data browser content loaded..."@,
        View::Settings => "Settings content loaded..."@,
        View::Help => "Help content loaded..."@,
    }
}

/// Main application structure
#[derive(Debug, Clone)]
pub struct App {
    pub current_view: View,
    pub should_quit: bool,
    pub style_manager: StyleManager,
    pub widget_manager: WidgetManager,
    pub view_manager: ViewManager,
}

impl App {
    /// Every widget shows the current view under the current theme: the
    /// sidebar highlights its id, the status bar summarises it, and the
    /// content pane holds its text and shows its content.
    pub open spec fn widgets_consistent(&self) -> bool {
        let t = self.style_manager@;
        let w = self.widget_manager;
        &&& w.themed(t)
        &&& self.view_manager.themed(t)
        &&& w.sidebar.current_view@ == view_key(self.current_view)
        &&& w.status_bar.status_text@ == status_line(self.current_view)
        &&& w.content.content@ == loaded_text(self.current_view)
        &&& w.content.view.is_some()
        &&& w.content.view.unwrap().spec_id() == self.current_view
        &&& w.content.view.unwrap().spec_theme() == t
    }

    /// The application's invariant: widgets consistent with the state, and the
    /// sidebar holding the four navigation entries.
    pub open spec fn wf(&self) -> bool {
        &&& self.widgets_consistent()
        &&& items_model(self.widget_manager.sidebar.items@) == default_items()
    }

    /// Create a new application instance: the dashboard, the light theme, not
    /// quitting, with every widget already showing the dashboard.
    pub fn new() -> (r: App)
        ensures
            r.wf(),
            r.current_view == View::Dashboard,
            !r.should_quit,
            r.style_manager@ == light_theme(),
    {
        let style_manager = StyleManager::default();
        let widget_manager = WidgetManager::new(style_manager);
        let view_manager = ViewManager::new(style_manager);
        let mut app = App {
            current_view: View::Dashboard,
            should_quit: false,
            style_manager,
            widget_manager,
            view_manager,
        };
        app.update_widgets();
        app
    }

    /// Act on an input event: key presses go to the navigation table, all
    /// other events (releases included) change nothing. Returns whether to quit.
    pub fn handle_event(&mut self, event: InputEvent) -> (quit: bool)
        requires
            old(self).wf(),
        ensures
            final(self).wf(),
            match event {
                InputEvent::Key { code, kind: KeyKind::Press } => {
                    &&& quit == is_quit_key(code)
                    &&& (final(self).current_view, final(self).should_quit) == transition(
                        old(self).current_view,
                        old(self).should_quit,
                        code,
                    )
                    &&& final(self).style_manager@ == (if code == Key::Char('t') {
                        toggled(old(self).style_manager@)
                    } else {
                        old(self).style_manager@
                    })
                    &&& !is_bound(code) ==> *final(self) == *old(self)
                },
                _ => !quit && *final(self) == *old(self),
            },
    {
        match event {
            InputEvent::Key { code, kind: KeyKind::Press } => self.handle_key_event(code),
            _ => false,
        }
    }

    /// Handle key events
    pub fn handle_key_event(&mut self, key: Key) -> (quit: bool)
        requires
            old(self).wf(),
        ensures
            final(self).wf(),
            quit == is_quit_key(key),
            (final(self).current_view, final(self).should_quit) == transition(
                old(self).current_view,
                old(self).should_quit,
                key,
            ),
            final(self).style_manager@ == (if key == Key::Char('t') {
                toggled(old(self).style_manager@)
            } else {
                old(self).style_manager@
            }),
            !is_bound(key) ==> *final(self) == *old(self),
    {
        match key {
            Key::Char('q') | Key::Esc => {
                self.should_quit = true;
                true
            },
            Key::Char('1') => {
                self.current_view = View::Dashboard;
                self.update_widgets();
                false
            },
            Key::Char('2') => {
                self.current_view = View::Data;
                self.update_widgets();
                false
            },
            Key::Char('3') => {
                self.current_view = View::Settings;
                self.update_widgets();
                false
            },
            Key::Char('4') => {
                self.current_view = View::Help;
                self.update_widgets();
                false
            },
            Key::Char('t') => {
                self.style_manager.toggle_theme();
                self.update_widgets();
                false
            },
            _ => false,
        }
    }

    /// Push the current view and theme into every widget, as one update.
    fn update_widgets(&mut self)
        requires
            items_model(old(self).widget_manager.sidebar.items@) == default_items(),
        ensures
            final(self).wf(),
            final(self).current_view == old(self).current_view,
            final(self).should_quit == old(self).should_quit,
            final(self).style_manager == old(self).style_manager,
    {
        let theme = *self.style_manager.theme();
        self.widget_manager.set_theme(theme);
        self.view_manager.set_theme(theme);
        self.widget_manager.sidebar.set_current_view(String::from_str(self.current_view.as_str()));
        let status_text = String::from_str("View: ").concat(self.current_view.as_str()).concat(
            " | Press 'q' to quit | 1-4 for navigation | 't' to toggle theme",
        );
        self.widget_manager.status_bar.set_status(status_text);
        let view_content = self.get_current_view_content();
        self.widget_manager.content.set_content(view_content);
        let view = self.view_manager.get_view(self.current_view);
        self.widget_manager.content.set_view(view);
    }

    /// Get content for the current view
    pub fn get_current_view_content(&self) -> (r: String)
        ensures
            r@ == loaded_text(self.current_view),
    {
        match self.current_view {
            View::Dashboard => String::from_str("Dashboard content loaded..."),
            View::Data => String::from_str("Data browser content loaded..."),
            View::Settings => String::from_str("Settings content loaded..."),
            View::Help => String::from_str("Help content loaded..."),
        }
    }

    /// Render the application into a frame of the given size.
    pub fn render(&self, area: Rect) -> (r: Screen)
        requires
            area.wf(),
        ensures
            r.layout == layout_of(area),
            r.header.model() == self.widget_manager.header.spec_render(r.layout.header),
            r.sidebar.model() == self.widget_manager.sidebar.spec_render(r.layout.sidebar),
            r.content.model() == self.widget_manager.content.spec_render(r.layout.content),
            r.status_bar.model() == self.widget_manager.status_bar.spec_render(r.layout.status),
    {
        self.widget_manager.render_all(area)
    }
}

/// The position of a view's entry in the sidebar.
pub open spec fn entry_index(v: View) -> int {
    match v {
        View::Dashboard => 0,
        View::Data => 1,
        View::Settings => 2,
        View::Help => 3,
    }
}

/// In any frame of a well-formed application all three widgets agree on the
/// current view: of the sidebar's entries exactly the current view's is in the
/// active style, the status bar shows that view's summary, and the content
/// pane shows that view's content under the current theme.
pub proof fn lemma_frame_consistent(app: App, side: Rect, main: Rect, bottom: Rect)
    requires
        app.wf(),
    ensures
        ({
            let t = app.style_manager@;
            let v = app.current_view;
            let lines = sidebar_lines(t, view_key(v), default_items(), side.width);
            &&& app.widget_manager.sidebar.spec_render(side).body == BodyModel::List { items: lines }
            &&& forall|i: int|
                0 <= i < default_items().len() ==> (#[trigger] lines[2 + i].1 == resolve(
                    t,
                    StyleType::ButtonActive,
                ) <==> i == entry_index(v))
            &&& app.widget_manager.status_bar.spec_render(bottom).body == BodyModel::Paragraph {
                lines: seq![(status_line(v), plain_style())],
                alignment: Alignment::Center,
                wrap: false,
            }
            &&& app.widget_manager.content.spec_render(main) == view_pane(v, t)
        }),
{
    let t = app.style_manager@;
    let v = app.current_view;
    let cur = view_key(v);
    let lines = sidebar_lines(t, cur, default_items(), side.width);
    reveal_strlit("dashboard");
    reveal_strlit("data");
    reveal_strlit("settings");
    reveal_strlit("help");
    assert("dashboard"@.len() == 9 && "settings"@.len() == 8);
    assert("data"@.len() == 4 && "help"@.len() == 4);
    assert("data"@[0] != "help"@[0]);
    assert(resolve(t, StyleType::ButtonActive) != resolve(t, StyleType::Button));
    assert forall|i: int| 0 <= i < default_items().len() implies (#[trigger] lines[2 + i].1
        == resolve(t, StyleType::ButtonActive) <==> i == entry_index(v)) by {
        assert(lines[2 + i] == entry_line(t, cur, default_items()[i]));
        assert(default_items()[i].0 == cur <==> i == entry_index(v));
    }
}

} // verus!
