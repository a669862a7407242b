//! The state store: the project list, the selection and the current route,
//! and the one transition function that changes them.

use crate::models::{Project, QuickAccessItem, Route};
use vstd::prelude::*;

verus! {

/// A request to change the state, as a user interaction produces it.
#[derive(Debug)]
pub enum Message {
    /// Create a project. Not available yet: the request is acknowledged as
    /// pending and changes nothing.
    CreateProject,
    /// Make the project at this position the selected one.
    SelectProject(usize),
    /// Replace the selected project.
    UpdateProject(Project),
    /// Remove the project at this position.
    DeleteProject(usize),
    /// Show this pane.
    NavigateTo(Route),
}

impl Clone for Message {
    fn clone(&self) -> (copy: Self)
        ensures
            copy == *self,
    {
        match self {
            Message::CreateProject => Message::CreateProject,
            Message::SelectProject(index) => Message::SelectProject(*index),
            Message::UpdateProject(project) => Message::UpdateProject(project.clone()),
            Message::DeleteProject(index) => Message::DeleteProject(*index),
            Message::NavigateTo(route) => Message::NavigateTo(*route),
        }
    }
}

/// What an accepted request did.
#[derive(Debug, Clone, Copy, PartialEq, Eq, Structural)]
pub enum Outcome {
    /// The state now is what the request asked for.
    Applied,
    /// There was nothing to act on; the state is unchanged.
    Ignored,
    /// The feature is not available yet; the state is unchanged.
    Pending,
}

/// Why a request was refused.
#[derive(Debug, Clone, Copy, PartialEq, Eq, Structural)]
pub enum StoreError {
    /// The selection pointed past the end of the project list. It has been
    /// cleared; the projects are unchanged.
    InvalidSelection,
    /// The request named a position past the end of the project list. The
    /// state is unchanged.
    IndexOutOfRange,
}

/// The state of the store as a mathematical value.
pub struct StoreState {
    pub projects: Seq<Project>,
    pub selected_project: Option<usize>,
    pub current_route: Route,
    pub quick_access_items: Seq<QuickAccessItem>,
}

impl StoreState {
    /// The state of a fresh store: no projects, nothing selected, the
    /// dashboard on screen.
    pub open spec fn initial() -> StoreState {
        StoreState {
            projects: Seq::empty(),
            selected_project: None,
            current_route: Route::Dashboard,
            quick_access_items: Seq::empty(),
        }
    }

    /// The selected project, if the selection points at one.
    ///
    /// A selection is a position, not a project: after a deletion it may
    /// point at another project or past the end of the list.
    pub open spec fn selected(self) -> Option<Project> {
        match self.selected_project {
            Some(index) if index < self.projects.len() => Some(self.projects[index as int]),
            _ => None,
        }
    }

    /// Whether the selection, if there is one, points at a project.
    ///
    /// Not every request keeps this: see
    /// [`selection_stays_in_range`](crate::laws::selection_stays_in_range).
    pub open spec fn selection_in_range(self) -> bool {
        match self.selected_project {
            Some(index) => index < self.projects.len(),
            None => true,
        }
    }

    /// The state after one request.
    pub open spec fn step(self, message: Message) -> StoreState {
        match message {
            Message::CreateProject => self,
            Message::SelectProject(index) => StoreState { selected_project: Some(index), ..self },
            Message::UpdateProject(project) => match self.selected_project {
                None => self,
                Some(index) => if index < self.projects.len() {
                    StoreState { projects: self.projects.update(index as int, project), ..self }
                } else {
                    StoreState { selected_project: None, ..self }
                },
            },
            Message::DeleteProject(index) => if index < self.projects.len() {
                StoreState {
                    projects: self.projects.remove(index as int),
                    selected_project: if self.selected_project == Some(index) {
                        None
                    } else {
                        self.selected_project
                    },
                    ..self
                }
            } else {
                self
            },
            Message::NavigateTo(route) => StoreState { current_route: route, ..self },
        }
    }

    /// What the store answers to one request.
    pub open spec fn answer(self, message: Message) -> Result<Outcome, StoreError> {
        match message {
            Message::CreateProject => Ok(Outcome::Pending),
            Message::SelectProject(_) => Ok(Outcome::Applied),
            Message::UpdateProject(_) => match self.selected_project {
                None => Ok(Outcome::Ignored),
                Some(index) => if index < self.projects.len() {
                    Ok(Outcome::Applied)
                } else {
                    Err(StoreError::InvalidSelection)
                },
            },
            Message::DeleteProject(index) => if index < self.projects.len() {
                Ok(Outcome::Applied)
            } else {
                Err(StoreError::IndexOutOfRange)
            },
            Message::NavigateTo(_) => Ok(Outcome::Applied),
        }
    }
}

/// The application state. Only [`SoftwareManager::update`] changes it.
pub struct SoftwareManager {
    projects: Vec<Project>,
    selected_project: Option<usize>,
    current_route: Route,
    quick_access_items: Vec<QuickAccessItem>,
}

impl SoftwareManager {
    /// The state as a mathematical value.
    pub closed spec fn state(&self) -> StoreState {
        StoreState {
            projects: self.projects@,
            selected_project: self.selected_project,
            current_route: self.current_route,
            quick_access_items: self.quick_access_items@,
        }
    }

    /// A store with no projects, nothing selected and the dashboard on
    /// screen.
    pub fn new() -> (store: Self)
        ensures
            store.state() == StoreState::initial(),
    {
        SoftwareManager {
            projects: Vec::new(),
            selected_project: None,
            current_route: Route::Dashboard,
            quick_access_items: Vec::new(),
        }
    }

    /// A store that starts out with the given projects, nothing selected and
    /// the dashboard on screen.
    pub fn with_projects(projects: Vec<Project>) -> (store: Self)
        ensures
            store.state() == (StoreState { projects: projects@, ..StoreState::initial() }),
    {
        SoftwareManager {
            projects,
            selected_project: None,
            current_route: Route::Dashboard,
            quick_access_items: Vec::new(),
        }
    }

    /// The projects, in list order.
    pub fn projects(&self) -> (projects: &Vec<Project>)
        ensures
            projects@ == self.state().projects,
    {
        &self.projects
    }

    /// The selected position, as the last request left it. It may point past
    /// the end of the list: see [`SoftwareManager::selected`].
    pub fn selected_project(&self) -> (selection: Option<usize>)
        ensures
            selection == self.state().selected_project,
    {
        self.selected_project
    }

    /// The selected project, if the selection points at one.
    pub fn selected(&self) -> (project: Option<&Project>)
        ensures
            match project {
                Some(p) => self.state().selected() == Some(*p),
                None => self.state().selected() is None,
            },
    {
        match self.selected_project {
            Some(index) => {
                if index < self.projects.len() {
                    Some(&self.projects[index])
                } else {
                    None
                }
            },
            None => None,
        }
    }

    /// The pane on screen.
    pub fn current_route(&self) -> (route: Route)
        ensures
            route == self.state().current_route,
    {
        self.current_route
    }

    /// The shortcuts of the sidebar. Nothing fills this list yet.
    pub fn quick_access_items(&self) -> (items: &Vec<QuickAccessItem>)
        ensures
            items@ == self.state().quick_access_items,
    {
        &self.quick_access_items
    }

    /// The title of the application window.
    pub fn title(&self) -> (title: String)
        ensures
            title@ == "Software Manager"@,
    {
        "Software Manager".to_string()
    }

    /// Applies one request. Every request is answered; none aborts.
    pub fn update(&mut self, message: Message) -> (answer: Result<Outcome, StoreError>)
        ensures
            final(self).state() == old(self).state().step(message),
            answer == old(self).state().answer(message),
    {
        match message {
            Message::CreateProject => Ok(Outcome::Pending),
            Message::SelectProject(index) => {
                self.selected_project = Some(index);
                Ok(Outcome::Applied)
            },
            Message::UpdateProject(project) => match self.selected_project {
                None => Ok(Outcome::Ignored),
                Some(index) => {
                    if index < self.projects.len() {
                        self.projects[index] = project;
                        Ok(Outcome::Applied)
                    } else {
                        self.selected_project = None;
                        Err(StoreError::InvalidSelection)
                    }
                },
            },
            Message::DeleteProject(index) => {
                if index < self.projects.len() {
                    self.projects.remove(index);
                    if self.selected_project == Some(index) {
                        self.selected_project = None;
                    }
                    Ok(Outcome::Applied)
                } else {
                    Err(StoreError::IndexOutOfRange)
                }
            },
            Message::NavigateTo(route) => {
                self.current_route = route;
                Ok(Outcome::Applied)
            },
        }
    }
}

} // verus!
