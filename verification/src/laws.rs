//! What holds of the store and of its view in every state.

use crate::models::{Project, Route};
use crate::store::{Message, Outcome, StoreError, StoreState};
use crate::theme::NavButtonTheme;
use crate::view::{nav_routes, ButtonStyle, Sidebar};
use vstd::prelude::*;

verus! {

/// The state after a sequence of requests, applied in order.
pub open spec fn run(state: StoreState, requests: Seq<Message>) -> StoreState
    decreases requests.len(),
{
    if requests.len() == 0 {
        state
    } else {
        run(state, requests.drop_last()).step(requests.last())
    }
}

/// Whatever the state and whatever requests came before, right after a
/// request to select position `index` the selection is `index`.
pub proof fn select_sets_selection(state: StoreState, earlier: Seq<Message>, index: usize)
    ensures
        run(state, earlier.push(Message::SelectProject(index))).selected_project == Some(index),
        run(state, earlier).answer(Message::SelectProject(index)) == Ok::<Outcome, StoreError>(
            Outcome::Applied,
        ),
{
    let requests = earlier.push(Message::SelectProject(index));
    assert(requests.drop_last() =~= earlier);
    assert(requests.last() == Message::SelectProject(index));
}

/// Deleting the project at the selected position clears the selection.
pub proof fn delete_selected_clears_selection(state: StoreState, index: usize)
    requires
        index < state.projects.len(),
        state.selected_project == Some(index),
    ensures
        state.step(Message::DeleteProject(index)).selected_project is None,
        state.step(Message::DeleteProject(index)).projects == state.projects.remove(index as int),
{
}

/// Deleting at any other position leaves the selection as it was, as a
/// position: the project found there may be another one afterwards, or none.
pub proof fn delete_other_keeps_selection(state: StoreState, index: usize)
    requires
        state.selected_project != Some(index),
    ensures
        state.step(Message::DeleteProject(index)).selected_project == state.selected_project,
{
}

/// A deletion past the end of the list is refused and changes nothing.
pub proof fn delete_out_of_range_is_refused(state: StoreState, index: usize)
    requires
        index >= state.projects.len(),
    ensures
        state.step(Message::DeleteProject(index)) == state,
        state.answer(Message::DeleteProject(index)) == Err::<Outcome, StoreError>(
            StoreError::IndexOutOfRange,
        ),
{
}

/// Right after a request to show a pane, that pane is the current one.
pub proof fn navigate_sets_route(state: StoreState, route: Route)
    ensures
        state.step(Message::NavigateTo(route)).current_route == route,
        state.step(Message::NavigateTo(route)).projects == state.projects,
        state.step(Message::NavigateTo(route)).selected_project == state.selected_project,
{
}

/// With nothing selected, a request to update changes nothing and is no
/// error.
pub proof fn update_without_selection_changes_nothing(state: StoreState, project: Project)
    requires
        state.selected_project is None,
    ensures
        state.step(Message::UpdateProject(project)) == state,
        state.answer(Message::UpdateProject(project)) == Ok::<Outcome, StoreError>(
            Outcome::Ignored,
        ),
{
}

/// With a selection that points at a project, a request to update puts the
/// new project at that position and touches nothing else.
pub proof fn update_replaces_selected(state: StoreState, project: Project)
    requires
        state.selected() is Some,
    ensures
        state.step(Message::UpdateProject(project)).selected() == Some(project),
        state.step(Message::UpdateProject(project)).projects == state.projects.update(
            state.selected_project->0 as int,
            project,
        ),
        state.step(Message::UpdateProject(project)).selected_project == state.selected_project,
        state.answer(Message::UpdateProject(project)) == Ok::<Outcome, StoreError>(
            Outcome::Applied,
        ),
{
}

/// With a selection that points past the end of the list, a request to
/// update is refused: the selection is cleared and the projects stay.
pub proof fn update_with_stale_selection_is_refused(state: StoreState, project: Project)
    requires
        state.selected_project is Some,
        state.selected() is None,
    ensures
        state.step(Message::UpdateProject(project)).selected_project is None,
        state.step(Message::UpdateProject(project)).projects == state.projects,
        state.answer(Message::UpdateProject(project)) == Err::<Outcome, StoreError>(
            StoreError::InvalidSelection,
        ),
{
}

/// A selection that points at a project, or none at all, stays so under
/// every request but two: a selection past the end of the list, and the
/// deletion of another project while the last one is selected.
pub proof fn selection_stays_in_range(state: StoreState, request: Message)
    requires
        state.selection_in_range(),
        request matches Message::SelectProject(index) ==> index < state.projects.len(),
        request matches Message::DeleteProject(index) ==> !(index < state.projects.len() && (
        state.selected_project matches Some(selected) && selected != index && selected + 1
            == state.projects.len())),
    ensures
        state.step(request).selection_in_range(),
        !(state.answer(request) matches Err(StoreError::InvalidSelection)),
{
}

/// A request to create a project changes nothing and is answered as
/// pending.
pub proof fn create_changes_nothing(state: StoreState)
    ensures
        state.step(Message::CreateProject) == state,
        state.answer(Message::CreateProject) == Ok::<Outcome, StoreError>(Outcome::Pending),
{
}

/// A refused request leaves the projects, the route and the shortcuts as
/// they were; at most a selection that pointed nowhere is cleared.
pub proof fn refusal_keeps_projects(state: StoreState, request: Message)
    requires
        state.answer(request) is Err,
    ensures
        state.step(request).projects == state.projects,
        state.step(request).current_route == state.current_route,
        state.step(request).quick_access_items == state.quick_access_items,
{
}

/// Every pane has exactly one navigation button.
pub proof fn every_route_has_one_button(route: Route)
    ensures
        exists|k: int| 0 <= k < nav_routes().len() && nav_routes()[k] == route,
        forall|j: int, k: int|
            0 <= j < nav_routes().len() && 0 <= k < nav_routes().len() && nav_routes()[j]
                == nav_routes()[k] ==> j == k,
{
    match route {
        Route::Dashboard => assert(nav_routes()[0] == route),
        Route::Collections => assert(nav_routes()[1] == route),
        Route::Articles => assert(nav_routes()[2] == route),
        Route::Learners => assert(nav_routes()[3] == route),
        Route::Reports => assert(nav_routes()[4] == route),
    }
}

/// In the sidebar of a state, the highlighted navigation button is the one
/// of the current pane and no other; and a press of any navigation button,
/// applied to that state, makes the pane of the button the current one.
pub proof fn nav_buttons_follow_route(sidebar: Sidebar, state: StoreState, k: int)
    requires
        sidebar.shows(state),
        0 <= k < sidebar.nav@.len(),
    ensures
        sidebar.nav@[k].style == ButtonStyle::Nav(
            NavButtonTheme { is_active: nav_routes()[k] == state.current_route },
        ),
        sidebar.nav@[k].on_press is Some,
        state.step(sidebar.nav@[k].on_press->0).current_route == nav_routes()[k],
{
    assert(sidebar.nav@[k].is_nav(nav_routes()[k], state.current_route));
}

} // verus!
