use oxfeed_front::route::{search_page, Page, Route};
use oxfeed_front::sidebar::{favicon, Counts, Links};

fn labels(links: &Links) -> Vec<&'static str> {
    links.iter().map(|x| x.label).collect()
}

#[test]
fn default_links() {
    let links = Links::new();
    assert_eq!(labels(&links), vec!["All", "Unread", "Favorites", "Tags", "Sources", "Settings"]);
    let icons: Vec<_> = links.iter().map(|x| x.icon).collect();
    assert_eq!(icons, vec!["collection", "book", "star", "tags", "diagram-3", "sliders"]);
    assert!(links.iter().all(|x| x.count == 0 && !x.has_error));
    assert!(!links.has_search());
}

#[test]
fn add_search_once() {
    let mut links = Links::new();
    let route = Route::Search { kind: "all".to_string() };
    links.add_search(&route);
    assert!(links.has_search());
    assert_eq!(links.len(), 7);
    assert_eq!(links[6].icon, "search");
    assert!(matches!(&links[6].route, Route::Search { kind } if kind == "all"));
    links.add_search(&Route::Search { kind: "sources".to_string() });
    assert_eq!(links.len(), 7);
    assert!(matches!(&links[6].route, Route::Search { kind } if kind == "all"));
}

#[test]
fn add_then_remove_search() {
    let mut links = Links::new();
    links.add_search(&Route::Search { kind: "unread".to_string() });
    links.remove_search();
    assert!(!links.has_search());
    assert_eq!(labels(&links), labels(&Links::new()));
    links.remove_search();
    assert_eq!(links.len(), 6);
}

#[test]
fn counts_go_to_their_links() {
    let counts = Counts {
        all: 10,
        unread: 3,
        favorites: 2,
        tags: 5,
        sources: 4,
        sources_has_error: true,
    };
    let mut links = Links::new();
    links.update_count(&counts);
    let numbers: Vec<_> = links.iter().map(|x| x.count).collect();
    assert_eq!(numbers, vec![10, 3, 2, 5, 4, 0]);
    let errors: Vec<_> = links.iter().map(|x| x.has_error).collect();
    assert_eq!(errors, vec![false, false, false, false, true, false]);
}

#[test]
fn links_for_a_search_page() {
    let counts = Counts { unread: 8, ..Counts::default() };
    let links = Links::for_page(&counts, &Route::Search { kind: "favorites".to_string() });
    assert_eq!(links.len(), 7);
    assert_eq!(links[1].count, 8);
    let links = Links::for_page(&counts, &Route::Tags);
    assert_eq!(links.len(), 6);
}

#[test]
fn favicon_names() {
    assert_eq!(favicon(true, 12), "error.svg");
    assert_eq!(favicon(false, 12), "unread-12.svg");
    assert_eq!(favicon(false, 0), "default.svg");
    assert_eq!(favicon(false, -1), "default.svg");
}

#[test]
fn pages_of_routes() {
    assert!(matches!(Route::All.page(), Page::Items { kind: "all" }));
    assert!(matches!(Route::Unread.page(), Page::Items { kind: "unread" }));
    assert!(matches!(Route::Favorites.page(), Page::Items { kind: "favorites" }));
    assert!(matches!(Route::Index.page(), Page::Redirect(Route::Unread)));
    assert!(matches!(Route::Settings.page(), Page::Settings));
    assert!(matches!(Route::NotFound.page(), Page::NotFound));
    match (Route::Search { kind: "tags".to_string() }).page() {
        Page::Search { kind } => assert_eq!(kind, "tags"),
        other => panic!("unexpected page {other:?}"),
    }
}

#[test]
fn search_pages() {
    assert!(matches!(search_page("sources"), Page::Sources));
    assert!(matches!(search_page("all"), Page::Items { kind: "all" }));
    assert!(matches!(search_page("favorites"), Page::Items { kind: "favorites" }));
    assert!(matches!(search_page("unread"), Page::Items { kind: "unread" }));
}

#[test]
fn route_clone_keeps_kind() {
    let route = Route::Search { kind: "all".to_string() };
    assert!(matches!(route.clone(), Route::Search { kind } if kind == "all"));
}
