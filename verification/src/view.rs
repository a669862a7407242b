//! The view projection: what the state looks like on screen, as a tree of
//! plain data that a rendering layer turns into widgets.

use crate::models::{Project, QuickAccessItem, Route};
use crate::store::{Message, SoftwareManager, StoreState};
use crate::theme::{CustomTheme, NavButtonTheme};
use vstd::prelude::*;

verus! {

/// How a button looks.
#[derive(Debug, Clone, Copy, PartialEq, Eq, Structural)]
pub enum ButtonStyle {
    /// The toolkit's own look.
    Plain,
    /// The look of a primary action.
    Custom(CustomTheme),
    /// The look of a navigation button.
    Nav(NavButtonTheme),
}

/// A button: what it says, how it looks and what a press of it requests.
#[derive(Debug)]
pub struct Button {
    pub label: String,
    pub style: ButtonStyle,
    /// `None` for a button that cannot be pressed.
    pub on_press: Option<Message>,
}

/// One project in the list of the collections pane.
#[derive(Debug)]
pub struct ProjectRow {
    pub icon: String,
    pub name: String,
    pub path: String,
    pub version: String,
    pub status: String,
    pub actions: Vec<Button>,
}

/// What the main pane shows below its header.
#[derive(Debug)]
pub enum Content {
    /// A label, for a pane without content of its own.
    Placeholder(String),
    /// The list of projects.
    Collections(Vec<ProjectRow>),
}

/// The sidebar: the logo, one navigation button per pane and the
/// quick-access section.
#[derive(Debug)]
pub struct Sidebar {
    pub style: CustomTheme,
    pub logo: String,
    pub nav: Vec<Button>,
    pub quick_access_title: String,
    pub quick_access: Vec<QuickAccessItem>,
}

/// The main pane: a header with the title and the button that creates a
/// project, and the content of the current pane.
#[derive(Debug)]
pub struct MainPane {
    pub style: CustomTheme,
    pub title: String,
    pub create: Button,
    pub content: Content,
}

/// The whole window.
#[derive(Debug)]
pub struct ViewTree {
    pub sidebar: Sidebar,
    pub main: MainPane,
}

/// The panes in the order of their navigation buttons.
pub open spec fn nav_routes() -> Seq<Route> {
    seq![Route::Dashboard, Route::Collections, Route::Articles, Route::Learners, Route::Reports]
}

impl Button {
    /// Whether this is the navigation button of `route` while `current` is
    /// on screen: it carries the title of `route`, is highlighted exactly if
    /// `route` is on screen, and a press asks to go to `route`.
    pub open spec fn is_nav(self, route: Route, current: Route) -> bool {
        &&& self.label@ == route.title_text()
        &&& self.style == ButtonStyle::Nav(NavButtonTheme { is_active: route == current })
        &&& self.on_press == Some(Message::NavigateTo(route))
    }

    /// Whether this is the button that asks to create a project.
    pub open spec fn is_create(self) -> bool {
        &&& self.label@ == "New Collection"@
        &&& self.style == ButtonStyle::Custom(CustomTheme)
        &&& self.on_press == Some(Message::CreateProject)
    }

    /// Whether this is a plain button with the given label that cannot be
    /// pressed.
    pub open spec fn is_idle(self, label: Seq<char>) -> bool {
        &&& self.label@ == label
        &&& self.style == ButtonStyle::Plain
        &&& self.on_press is None
    }
}

impl ProjectRow {
    /// Whether this is the row of `project`: its name and its path, between
    /// the folder icon and the fixed version and status labels, with the two
    /// actions that are not wired up yet.
    pub open spec fn shows(self, project: Project) -> bool {
        &&& self.icon@ == "\u{1F4C1}"@
        &&& self.name@ == project.name@
        &&& self.path@ == project.path@
        &&& self.version@ == "v1.0"@
        &&& self.status@ == "TODO"@
        &&& self.actions@.len() == 2
        &&& self.actions@[0].is_idle("GitHub"@)
        &&& self.actions@[1].is_idle("Edit"@)
    }
}

impl Content {
    /// Whether this is the content of the main pane in state `state`: one
    /// row per project, in list order, on the collections pane, and the
    /// placeholder of the pane on every other.
    pub open spec fn shows(self, state: StoreState) -> bool {
        match self {
            Content::Collections(rows) => {
                &&& state.current_route == Route::Collections
                &&& rows@.len() == state.projects.len()
                &&& forall|i: int|
                    0 <= i < rows@.len() ==> (#[trigger] rows@[i]).shows(state.projects[i])
            },
            Content::Placeholder(label) => {
                &&& state.current_route != Route::Collections
                &&& label@ == state.current_route.placeholder_text()
            },
        }
    }
}

impl Sidebar {
    /// Whether this is the sidebar in state `state`: the logo, the
    /// navigation buttons of all panes in the order of [`nav_routes`], and an
    /// empty quick-access section.
    pub open spec fn shows(self, state: StoreState) -> bool {
        &&& self.logo@ == "\u{1F980}"@
        &&& self.nav@.len() == nav_routes().len()
        &&& forall|k: int|
            0 <= k < self.nav@.len() ==> (#[trigger] self.nav@[k]).is_nav(
                nav_routes()[k],
                state.current_route,
            )
        &&& self.quick_access_title@ == "Quick Access"@
        &&& self.quick_access@.len() == 0
    }
}

impl MainPane {
    /// Whether this is the main pane in state `state`.
    pub open spec fn shows(self, state: StoreState) -> bool {
        &&& self.title@ == state.current_route.title_text()
        &&& self.create.is_create()
        &&& self.content.shows(state)
    }
}

impl ViewTree {
    /// Whether this is the window in state `state`.
    pub open spec fn shows(self, state: StoreState) -> bool {
        &&& self.sidebar.shows(state)
        &&& self.main.shows(state)
    }
}

impl SoftwareManager {
    /// The title of the pane on screen.
    pub fn page_title(&self) -> (title: String)
        ensures
            title@ == self.state().current_route.title_text(),
    {
        match self.current_route() {
            Route::Dashboard => "Dashboard",
            Route::Collections => "Collections",
            Route::Articles => "Articles",
            Route::Learners => "Learners",
            Route::Reports => "Reports",
        }.to_string()
    }

    /// The navigation button that leads to `route`.
    pub fn nav_button(&self, label: &str, route: Route) -> (button: Button)
        ensures
            button.label@ == label@,
            button.style == ButtonStyle::Nav(
                NavButtonTheme { is_active: route == self.state().current_route },
            ),
            button.on_press == Some(Message::NavigateTo(route)),
    {
        let is_active = self.current_route() == route;
        Button {
            label: label.to_string(),
            style: ButtonStyle::Nav(NavButtonTheme { is_active }),
            on_press: Some(Message::NavigateTo(route)),
        }
    }

    /// The sidebar.
    pub fn view_sidebar(&self) -> (sidebar: Sidebar)
        ensures
            sidebar.shows(self.state()),
    {
        let mut nav: Vec<Button> = Vec::new();
        nav.push(self.nav_button("Dashboard", Route::Dashboard));
        nav.push(self.nav_button("Collections", Route::Collections));
        nav.push(self.nav_button("Articles", Route::Articles));
        nav.push(self.nav_button("Learners", Route::Learners));
        nav.push(self.nav_button("Reports", Route::Reports));
        Sidebar {
            style: CustomTheme,
            logo: "\u{1F980}".to_string(),
            nav,
            quick_access_title: "Quick Access".to_string(),
            quick_access: Vec::new(),
        }
    }

    /// The rows of the collections pane: one per project, in list order.
    pub fn view_collections(&self) -> (content: Content)
        ensures
            content matches Content::Collections(rows) && rows@.len() == self.state().projects.len()
                && forall|i: int|
                0 <= i < rows@.len() ==> (#[trigger] rows@[i]).shows(self.state().projects[i]),
    {
        let projects = self.projects();
        let mut rows: Vec<ProjectRow> = Vec::new();
        let mut i: usize = 0;
        while i < projects.len()
            invariant
                i <= projects.len(),
                rows@.len() == i,
                forall|j: int| 0 <= j < i ==> (#[trigger] rows@[j]).shows(projects@[j]),
            decreases projects.len() - i,
        {
            let project = &projects[i];
            let mut actions: Vec<Button> = Vec::new();
            actions.push(
                Button { label: "GitHub".to_string(), style: ButtonStyle::Plain, on_press: None },
            );
            actions.push(
                Button { label: "Edit".to_string(), style: ButtonStyle::Plain, on_press: None },
            );
            rows.push(
                ProjectRow {
                    icon: "\u{1F4C1}".to_string(),
                    name: project.name.clone(),
                    path: project.path.clone(),
                    version: "v1.0".to_string(),
                    status: "TODO".to_string(),
                    actions,
                },
            );
            i += 1;
        }
        Content::Collections(rows)
    }

    /// The main pane.
    pub fn view_main_content(&self) -> (pane: MainPane)
        ensures
            pane.shows(self.state()),
    {
        let create = Button {
            label: "New Collection".to_string(),
            style: ButtonStyle::Custom(CustomTheme),
            on_press: Some(Message::CreateProject),
        };
        proof {
            reveal_strlit("Dashboard");
            reveal_strlit("Articles");
            reveal_strlit("Learners");
            reveal_strlit("Reports");
            reveal_strlit(" Content");
            reveal_strlit("Dashboard Content");
            reveal_strlit("Articles Content");
            reveal_strlit("Learners Content");
            reveal_strlit("Reports Content");
            assert("Dashboard Content"@ =~= "Dashboard"@ + " Content"@);
            assert("Articles Content"@ =~= "Articles"@ + " Content"@);
            assert("Learners Content"@ =~= "Learners"@ + " Content"@);
            assert("Reports Content"@ =~= "Reports"@ + " Content"@);
        }
        let content = match self.current_route() {
            Route::Collections => self.view_collections(),
            Route::Dashboard => Content::Placeholder("Dashboard Content".to_string()),
            Route::Articles => Content::Placeholder("Articles Content".to_string()),
            Route::Learners => Content::Placeholder("Learners Content".to_string()),
            Route::Reports => Content::Placeholder("Reports Content".to_string()),
        };
        MainPane { style: CustomTheme, title: self.page_title(), create, content }
    }

    /// The whole window: the sidebar beside the main pane.
    pub fn view(&self) -> (tree: ViewTree)
        ensures
            tree.shows(self.state()),
    {
        ViewTree { sidebar: self.view_sidebar(), main: self.view_main_content() }
    }
}

impl Button {
    /// The request that a press of this button makes, if it can be pressed.
    pub fn press(&self) -> (event: Option<Message>)
        ensures
            event == self.on_press,
    {
        match &self.on_press {
            Some(message) => Some(message.clone()),
            None => None,
        }
    }
}

} // verus!
