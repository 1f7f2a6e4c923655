//! The pages of the application and the page each one shows.
use vstd::prelude::*;

verus! {

/// A page of the application.
#[derive(Debug)]
pub enum Route {
    Favorites,
    Settings,
    Search { kind: String },
    Sources,
    Tags,
    Unread,
    All,
    Index,
    NotFound,
}

impl Clone for Route {
    fn clone(&self) -> (route: Self)
        ensures
            route == *self,
    {
        match self {
            Route::Favorites => Route::Favorites,
            Route::Settings => Route::Settings,
            Route::Search { kind } => Route::Search { kind: kind.clone() },
            Route::Sources => Route::Sources,
            Route::Tags => Route::Tags,
            Route::Unread => Route::Unread,
            Route::All => Route::All,
            Route::Index => Route::Index,
            Route::NotFound => Route::NotFound,
        }
    }
}

/// What a page shows.
#[derive(Debug)]
#[allow(inconsistent_fields)]
pub enum Page {
    /// The list of items of a kind (`all`, `favorites` or `unread`).
    Items { kind: &'static str },
    Settings,
    Sources,
    Tags,
    /// The search among the things of a kind.
    Search { kind: String },
    NotFound,
    /// A redirection to another page.
    Redirect(Route),
}

/// What the page `route` shows.
pub open spec fn page_of(route: Route) -> Page {
    match route {
        Route::All => Page::Items { kind: "all" },
        Route::Favorites => Page::Items { kind: "favorites" },
        Route::Settings => Page::Settings,
        Route::Sources => Page::Sources,
        Route::Tags => Page::Tags,
        Route::Unread => Page::Items { kind: "unread" },
        Route::Search { kind } => Page::Search { kind },
        Route::NotFound => Page::NotFound,
        Route::Index => Page::Redirect(Route::Unread),
    }
}

/// What the search among the things of kind `kind` shows, for the kinds
/// that can be searched: the sources, or the items of a kind.
pub open spec fn search_page_of(kind: Seq<char>) -> Page {
    if kind == "sources"@ {
        Page::Sources
    } else if kind == "all"@ {
        Page::Items { kind: "all" }
    } else if kind == "favorites"@ {
        Page::Items { kind: "favorites" }
    } else {
        Page::Items { kind: "unread" }
    }
}

/// The kinds of things that can be searched.
pub open spec fn searchable(kind: Seq<char>) -> bool {
    kind == "sources"@ || kind == "all"@ || kind == "favorites"@ || kind == "unread"@
}

/// What the search among the things of kind `kind` shows.
pub fn search_page(kind: &str) -> (page: Page)
    requires
        searchable(kind@),
    ensures
        page == search_page_of(kind@),
{
    if crate::text::same_text(kind, "sources") {
        Page::Sources
    } else if crate::text::same_text(kind, "all") {
        Page::Items { kind: "all" }
    } else if crate::text::same_text(kind, "favorites") {
        Page::Items { kind: "favorites" }
    } else {
        Page::Items { kind: "unread" }
    }
}

impl Route {
    /// What the page shows; the index redirects to the unread items.
    pub fn page(&self) -> (page: Page)
        ensures
            page == page_of(*self),
            (*self is Sources) <==> (page is Sources),
            (*self is Tags) <==> (page is Tags),
            (*self is Settings) <==> (page is Settings),
            (*self is NotFound) <==> (page is NotFound),
            *self is All ==> page == (Page::Items { kind: "all" }),
            *self is Favorites ==> page == (Page::Items { kind: "favorites" }),
            *self is Unread ==> page == (Page::Items { kind: "unread" }),
            *self is Index ==> page == Page::Redirect(Route::Unread),
            *self is Search ==> page == (Page::Search { kind: self->kind }),
    {
        match self {
            Route::All => Page::Items { kind: "all" },
            Route::Favorites => Page::Items { kind: "favorites" },
            Route::Settings => Page::Settings,
            Route::Sources => Page::Sources,
            Route::Tags => Page::Tags,
            Route::Unread => Page::Items { kind: "unread" },
            Route::Search { kind } => Page::Search { kind: kind.clone() },
            Route::NotFound => Page::NotFound,
            Route::Index => Page::Redirect(Route::Unread),
        }
    }
}

/// Each page that is not a list of items shows the page of its own name:
/// the sources page shows the sources, the tags page the tags, the settings
/// page the settings; the item pages show the items of their kind, a search
/// shows the search among the things of its kind, and the index sends the
/// user on to the unread items.
pub proof fn lemma_route_pages(kind: String)
    ensures
        page_of(Route::Sources) == Page::Sources,
        page_of(Route::Tags) == Page::Tags,
        page_of(Route::Settings) == Page::Settings,
        page_of(Route::NotFound) == Page::NotFound,
        page_of(Route::All) == (Page::Items { kind: "all" }),
        page_of(Route::Favorites) == (Page::Items { kind: "favorites" }),
        page_of(Route::Unread) == (Page::Items { kind: "unread" }),
        page_of(Route::Index) == Page::Redirect(Route::Unread),
        page_of(Route::Search { kind }) == (Page::Search { kind }),
        forall|route: Route| (route is Sources) <==> (#[trigger] page_of(route) is Sources),
        forall|route: Route| (route is Tags) <==> (#[trigger] page_of(route) is Tags),
{
}

} // verus!
