use software_manager::models::{ProgrammingLanguage, Project, Route};
use software_manager::store::{Message, SoftwareManager};
use software_manager::theme::{CustomTheme, NavButtonTheme};
use software_manager::view::{Button, ButtonStyle, Content};

const ROUTES: [Route; 5] =
    [Route::Dashboard, Route::Collections, Route::Articles, Route::Learners, Route::Reports];

const TITLES: [&str; 5] = ["Dashboard", "Collections", "Articles", "Learners", "Reports"];

fn row_project(n: u128, name: &str, path: &str) -> Project {
    let at = chrono::DateTime::from_timestamp(1_700_000_000, 0).unwrap().naive_utc();
    Project {
        id: uuid::Uuid::from_u128(n),
        name: name.to_string(),
        description: Some("shown nowhere".to_string()),
        language: ProgrammingLanguage::Go,
        created_at: at,
        updated_at: at,
        git_url: Some("https://example.org/repo.git".to_string()),
        path: path.to_string(),
    }
}

fn two_projects() -> SoftwareManager {
    SoftwareManager::with_projects(vec![
        row_project(1, "alpha", "/srv/alpha"),
        row_project(2, "beta", "/srv/beta"),
    ])
}

#[test]
fn page_title_names_the_current_route() {
    let mut store = SoftwareManager::new();
    assert_eq!(store.page_title(), "Dashboard");
    for k in 0..5 {
        store.update(Message::NavigateTo(ROUTES[k])).unwrap();
        assert_eq!(store.page_title(), TITLES[k]);
    }
}

#[test]
fn nav_button_carries_label_route_and_highlight() {
    let mut store = SoftwareManager::new();
    store.update(Message::NavigateTo(Route::Articles)).unwrap();
    let here = store.nav_button("Articles", Route::Articles);
    assert_eq!(here.label, "Articles");
    assert_eq!(here.style, ButtonStyle::Nav(NavButtonTheme { is_active: true }));
    assert!(matches!(here.on_press, Some(Message::NavigateTo(Route::Articles))));
    let there = store.nav_button("Go to reports", Route::Reports);
    assert_eq!(there.label, "Go to reports");
    assert_eq!(there.style, ButtonStyle::Nav(NavButtonTheme { is_active: false }));
    assert!(matches!(there.on_press, Some(Message::NavigateTo(Route::Reports))));
}

#[test]
fn sidebar_has_one_button_per_route_in_order() {
    let mut store = SoftwareManager::new();
    for current in 0..5 {
        store.update(Message::NavigateTo(ROUTES[current])).unwrap();
        let sidebar = store.view_sidebar();
        assert_eq!(sidebar.nav.len(), 5);
        for k in 0..5 {
            assert_eq!(sidebar.nav[k].label, TITLES[k]);
            assert_eq!(
                sidebar.nav[k].style,
                ButtonStyle::Nav(NavButtonTheme { is_active: k == current })
            );
            assert!(matches!(&sidebar.nav[k].on_press,
                Some(Message::NavigateTo(r)) if *r == ROUTES[k]));
        }
    }
}

#[test]
fn sidebar_shows_logo_and_empty_quick_access() {
    let sidebar = two_projects().view_sidebar();
    assert_eq!(sidebar.style, CustomTheme);
    assert_eq!(sidebar.logo, "\u{1F980}");
    assert_eq!(sidebar.quick_access_title, "Quick Access");
    assert!(sidebar.quick_access.is_empty());
}

#[test]
fn main_pane_header_has_title_and_create_button() {
    let mut store = two_projects();
    for k in 0..5 {
        store.update(Message::NavigateTo(ROUTES[k])).unwrap();
        let pane = store.view_main_content();
        assert_eq!(pane.style, CustomTheme);
        assert_eq!(pane.title, TITLES[k]);
        assert_eq!(pane.create.label, "New Collection");
        assert_eq!(pane.create.style, ButtonStyle::Custom(CustomTheme));
        assert!(matches!(pane.create.on_press, Some(Message::CreateProject)));
    }
}

#[test]
fn other_panes_show_their_placeholder() {
    let mut store = two_projects();
    let expected = [
        (Route::Dashboard, "Dashboard Content"),
        (Route::Articles, "Articles Content"),
        (Route::Learners, "Learners Content"),
        (Route::Reports, "Reports Content"),
    ];
    for (route, label) in expected {
        store.update(Message::NavigateTo(route)).unwrap();
        let pane = store.view_main_content();
        assert!(matches!(&pane.content, Content::Placeholder(l) if l == label));
    }
}

#[test]
fn collections_pane_shows_one_row_per_project() {
    let mut store = two_projects();
    store.update(Message::NavigateTo(Route::Collections)).unwrap();
    let pane = store.view_main_content();
    let rows = match pane.content {
        Content::Collections(rows) => rows,
        Content::Placeholder(label) => panic!("placeholder {:?} on the collections pane", label),
    };
    assert_eq!(rows.len(), 2);
    let expected = [("alpha", "/srv/alpha"), ("beta", "/srv/beta")];
    for k in 0..2 {
        assert_eq!(rows[k].icon, "\u{1F4C1}");
        assert_eq!(rows[k].name, expected[k].0);
        assert_eq!(rows[k].path, expected[k].1);
        assert_eq!(rows[k].version, "v1.0");
        assert_eq!(rows[k].status, "TODO");
        assert_eq!(rows[k].actions.len(), 2);
        assert_eq!(rows[k].actions[0].label, "GitHub");
        assert_eq!(rows[k].actions[1].label, "Edit");
        for action in &rows[k].actions {
            assert_eq!(action.style, ButtonStyle::Plain);
            assert!(action.on_press.is_none());
            assert!(action.press().is_none());
        }
    }
}

#[test]
fn view_collections_follows_the_list_on_any_route() {
    let mut store = two_projects();
    store.update(Message::DeleteProject(0)).unwrap();
    let rows = match store.view_collections() {
        Content::Collections(rows) => rows,
        Content::Placeholder(label) => panic!("placeholder {:?} for the rows", label),
    };
    assert_eq!(rows.len(), 1);
    assert_eq!(rows[0].name, "beta");
    assert_eq!(rows[0].path, "/srv/beta");
}

#[test]
fn collections_pane_of_empty_store_has_no_rows() {
    let mut store = SoftwareManager::new();
    store.update(Message::NavigateTo(Route::Collections)).unwrap();
    assert!(matches!(store.view().main.content, Content::Collections(rows) if rows.is_empty()));
}

#[test]
fn view_joins_sidebar_and_main_pane() {
    let mut store = two_projects();
    store.update(Message::NavigateTo(Route::Learners)).unwrap();
    let tree = store.view();
    assert_eq!(tree.sidebar.nav.len(), 5);
    assert_eq!(tree.sidebar.nav[3].style, ButtonStyle::Nav(NavButtonTheme { is_active: true }));
    assert_eq!(tree.main.title, "Learners");
    assert!(matches!(&tree.main.content, Content::Placeholder(l) if l == "Learners Content"));
}

#[test]
fn view_does_not_change_the_state() {
    let mut store = two_projects();
    store.update(Message::SelectProject(1)).unwrap();
    store.update(Message::NavigateTo(Route::Collections)).unwrap();
    let _ = store.view();
    assert_eq!(store.projects().len(), 2);
    assert_eq!(store.selected_project(), Some(1));
    assert_eq!(store.current_route(), Route::Collections);
}

#[test]
fn pressing_a_nav_button_leads_to_its_pane() {
    let mut store = two_projects();
    for k in 0..5 {
        let sidebar = store.view_sidebar();
        let event = sidebar.nav[k].press().unwrap();
        store.update(event).unwrap();
        assert_eq!(store.current_route(), ROUTES[k]);
        let after = store.view_sidebar();
        for j in 0..5 {
            assert_eq!(
                after.nav[j].style,
                ButtonStyle::Nav(NavButtonTheme { is_active: j == k })
            );
        }
    }
}

#[test]
fn pressing_create_requests_a_project() {
    let store = two_projects();
    let event = store.view().main.create.press();
    assert!(matches!(event, Some(Message::CreateProject)));
}

#[test]
fn press_hands_out_the_captured_request() {
    let button = Button {
        label: "second".to_string(),
        style: ButtonStyle::Plain,
        on_press: Some(Message::SelectProject(1)),
    };
    assert!(matches!(button.press(), Some(Message::SelectProject(1))));
    assert!(matches!(button.on_press, Some(Message::SelectProject(1))));
    let update = Button {
        label: "save".to_string(),
        style: ButtonStyle::Custom(CustomTheme),
        on_press: Some(Message::UpdateProject(row_project(5, "gamma", "/srv/gamma"))),
    };
    assert!(matches!(update.press(), Some(Message::UpdateProject(p))
        if p.name == "gamma" && p.path == "/srv/gamma" && p.id == uuid::Uuid::from_u128(5)));
}
