//! The links of the sidebar, with the number of things behind each one, and
//! the icon of the page.
use crate::route::Route;
use crate::text::{decimal, decimal_string, digits_value};
use vstd::prelude::*;

verus! {

/// The numbers of things of each kind that the API reports.
#[derive(Clone, Copy, Debug, PartialEq, Eq, Structural)]
pub struct Counts {
    pub all: i64,
    pub unread: i64,
    pub favorites: i64,
    pub tags: i64,
    pub sources: i64,
    pub sources_has_error: bool,
}

impl Default for Counts {
    fn default() -> (counts: Self)
        ensures
            counts == (Counts {
                all: 0,
                unread: 0,
                favorites: 0,
                tags: 0,
                sources: 0,
                sources_has_error: false,
            }),
    {
        Counts { all: 0, unread: 0, favorites: 0, tags: 0, sources: 0, sources_has_error: false }
    }
}

/// A link of the sidebar.
#[derive(Debug)]
pub struct Link {
    pub count: i64,
    pub icon: &'static str,
    pub label: &'static str,
    pub route: Route,
    pub has_error: bool,
}

impl Clone for Link {
    fn clone(&self) -> (link: Self)
        ensures
            link == *self,
    {
        Link {
            count: self.count,
            icon: self.icon,
            label: self.label,
            route: self.route.clone(),
            has_error: self.has_error,
        }
    }
}

/// The links of the sidebar, in order.
#[derive(Clone, Debug)]
pub struct Links(Vec<Link>);

/// A link with nothing counted and no error.
pub open spec fn plain_link(icon: &'static str, label: &'static str, route: Route) -> Link {
    Link { count: 0, has_error: false, icon, label, route }
}

/// The links every sidebar starts with.
pub open spec fn default_links() -> Seq<Link> {
    seq![
        plain_link("collection", "All", Route::All),
        plain_link("book", "Unread", Route::Unread),
        plain_link("star", "Favorites", Route::Favorites),
        plain_link("tags", "Tags", Route::Tags),
        plain_link("diagram-3", "Sources", Route::Sources),
        plain_link("sliders", "Settings", Route::Settings),
    ]
}

/// The default links with the counts of `counts`: the first five count
/// the items, unread items, favorites, tags and sources; the sources link
/// carries the error mark.
pub open spec fn counted_links(counts: Counts) -> Seq<Link> {
    let d = default_links();
    seq![
        Link { count: counts.all, ..d[0] },
        Link { count: counts.unread, ..d[1] },
        Link { count: counts.favorites, ..d[2] },
        Link { count: counts.tags, ..d[3] },
        Link { count: counts.sources, has_error: counts.sources_has_error, ..d[4] },
        d[5],
    ]
}

/// The link to the current search.
pub open spec fn search_link(route: Route) -> Link {
    plain_link("search", "Search", route)
}

/// `link` is the link `model` with some count and error mark.
pub open spec fn same_target(link: Link, model: Link) -> bool {
    link.icon == model.icon && link.label == model.label && link.route == model.route
}

/// The name of the icon of the page: `error.svg` when the live updates
/// failed, `unread-N.svg` when `N > 0` items are unread, `default.svg`
/// otherwise.
pub open spec fn favicon_name(sse_error: bool, unread: i64) -> Seq<char> {
    if sse_error {
        "error.svg"@
    } else if unread > 0 {
        "unread-"@ + decimal(unread as nat) + ".svg"@
    } else {
        "default.svg"@
    }
}

/// `name` is `unread-`, then the decimal digits of `count` without a leading
/// zero, then `.svg`.
pub open spec fn names_unread_count(name: Seq<char>, count: int) -> bool {
    &&& name.len() > 11
    &&& name.subrange(0, 7) == "unread-"@
    &&& name.subrange(name.len() - 4, name.len() as int) == ".svg"@
    &&& forall|i: int| 7 <= i < name.len() - 4 ==> '0' <= #[trigger] name[i] <= '9'
    &&& name[7] != '0'
    &&& digits_value(name.subrange(7, name.len() - 4)) == count
}

/// The icon tells the live-update error first, then the number of unread
/// items itself, whole: with no error and `unread > 0` the name is `unread-`,
/// the digits that read back as `unread`, and `.svg`.
pub proof fn lemma_favicon_names_unread(sse_error: bool, unread: i64)
    ensures
        sse_error ==> favicon_name(sse_error, unread) == "error.svg"@,
        !sse_error && unread > 0 ==> names_unread_count(favicon_name(sse_error, unread), unread as int),
        !sse_error && unread <= 0 ==> favicon_name(sse_error, unread) == "default.svg"@,
{
    if !sse_error && unread > 0 {
        let n = unread as nat;
        let name = favicon_name(sse_error, unread);
        reveal_strlit("unread-");
        reveal_strlit(".svg");
        crate::text::lemma_decimal_digits(n);
        crate::text::lemma_decimal_value(n);
        let d = decimal(n);
        assert(name.subrange(0, 7) =~= "unread-"@);
        assert(name.subrange(name.len() - 4, name.len() as int) =~= ".svg"@);
        assert(name.subrange(7, name.len() - 4) =~= d);
        assert forall|i: int| 7 <= i < name.len() - 4 implies '0' <= #[trigger] name[i] <= '9' by {
            assert(name[i] == d[i - 7]);
        }
        assert(name[7] == d[0]);
    }
}

/// Each link carries the number of things of the kind its route names, under
/// the label of that kind: the items, the unread items, the favorites, the
/// tags and the sources (with the error mark of the sources on that link
/// alone), while the settings and a search count nothing; and the five
/// counted kinds each have their link, in that order.
pub open spec fn links_count_by_route(links: Seq<Link>, counts: Counts) -> bool {
    &&& links.len() >= 6
    &&& links[0].route is All && links[1].route is Unread && links[2].route is Favorites
    &&& links[3].route is Tags && links[4].route is Sources && links[5].route is Settings
    &&& forall|i: int| 0 <= i < links.len() ==> {
        let link = #[trigger] links[i];
        &&& link.route is All ==> link.count == counts.all && link.label == "All"
        &&& link.route is Unread ==> link.count == counts.unread && link.label == "Unread"
        &&& link.route is Favorites ==> link.count == counts.favorites && link.label == "Favorites"
        &&& link.route is Tags ==> link.count == counts.tags && link.label == "Tags"
        &&& link.route is Sources ==> link.count == counts.sources && link.label == "Sources"
        &&& (link.route is Settings || link.route is Search) ==> link.count == 0
        &&& link.has_error == (link.route is Sources && counts.sources_has_error)
    }
}

/// The counted links show each count on the link of its own kind, whether or
/// not a search link follows them.
pub proof fn lemma_counted_links_by_route(counts: Counts)
    ensures
        links_count_by_route(counted_links(counts), counts),
        forall|route: Route|
            route is Search ==> links_count_by_route(
                #[trigger] counted_links(counts).push(search_link(route)),
                counts,
            ),
{
    let c = counted_links(counts);
    assert forall|i: int| 0 <= i < c.len() implies {
        let link = #[trigger] c[i];
        &&& link.route is All ==> link.count == counts.all && link.label == "All"
        &&& link.route is Unread ==> link.count == counts.unread && link.label == "Unread"
        &&& link.route is Favorites ==> link.count == counts.favorites && link.label == "Favorites"
        &&& link.route is Tags ==> link.count == counts.tags && link.label == "Tags"
        &&& link.route is Sources ==> link.count == counts.sources && link.label == "Sources"
        &&& (link.route is Settings || link.route is Search) ==> link.count == 0
        &&& link.has_error == (link.route is Sources && counts.sources_has_error)
    } by {
        if i == 0 {
        } else if i == 1 {
        } else if i == 2 {
        } else if i == 3 {
        } else if i == 4 {
        } else {
        }
    }
    assert forall|route: Route| route is Search implies links_count_by_route(
        #[trigger] c.push(search_link(route)),
        counts,
    ) by {
        let p = c.push(search_link(route));
        assert forall|i: int| 0 <= i < p.len() implies {
            let link = #[trigger] p[i];
            &&& link.route is All ==> link.count == counts.all && link.label == "All"
            &&& link.route is Unread ==> link.count == counts.unread && link.label == "Unread"
            &&& link.route is Favorites ==> link.count == counts.favorites && link.label
                == "Favorites"
            &&& link.route is Tags ==> link.count == counts.tags && link.label == "Tags"
            &&& link.route is Sources ==> link.count == counts.sources && link.label == "Sources"
            &&& (link.route is Settings || link.route is Search) ==> link.count == 0
            &&& link.has_error == (link.route is Sources && counts.sources_has_error)
        } by {
            if i < 6 {
                assert(p[i] == c[i]);
            }
        }
    }
}

impl Links {
    /// The links, in order.
    pub closed spec fn view(&self) -> Seq<Link> {
        self.0@
    }

    /// The links are the default links, with their counts, and at most the
    /// link to a search after them.
    pub open spec fn wf(&self) -> bool {
        &&& (self.view().len() == 6 || self.view().len() == 7)
        &&& forall|i: int| 0 <= i < 6 ==> same_target(#[trigger] self.view()[i], default_links()[i])
        &&& self.view().len() == 7 ==> same_target(self.view()[6], search_link(self.view()[6].route))
            && self.view()[6].route is Search
    }

    /// The default links, with nothing counted.
    pub fn new() -> (links: Self)
        ensures
            links.view() == default_links(),
            links.wf(),
    {
        let links = vec![
            Link {
                count: 0,
                has_error: false,
                icon: "collection",
                label: "All",
                route: Route::All,
            },
            Link {
                count: 0,
                has_error: false,
                icon: "book",
                label: "Unread",
                route: Route::Unread,
            },
            Link {
                count: 0,
                has_error: false,
                icon: "star",
                label: "Favorites",
                route: Route::Favorites,
            },
            Link {
                count: 0,
                has_error: false,
                icon: "tags",
                label: "Tags",
                route: Route::Tags,
            },
            Link {
                count: 0,
                has_error: false,
                icon: "diagram-3",
                label: "Sources",
                route: Route::Sources,
            },
            Link {
                count: 0,
                has_error: false,
                icon: "sliders",
                label: "Settings",
                route: Route::Settings,
            },
        ];
        let links = Self(links);
        assert(links.view() =~= default_links());
        links
    }

    /// Adds the link to the search `search_route`, unless there is a search
    /// link already.
    pub fn add_search(&mut self, search_route: &Route)
        ensures
            old(self).view().len() != 6 ==> final(self).view() == old(self).view(),
            old(self).view().len() == 6 ==> final(self).view() == old(self).view().push(
                search_link(*search_route),
            ),
            old(self).wf() && search_route is Search ==> final(self).wf(),
    {
        if !self.has_search() {
            self.0.push(
                Link {
                    count: 0,
                    has_error: false,
                    icon: "search",
                    label: "Search",
                    route: search_route.clone(),
                },
            );
        }
    }

    /// Removes the last link when there is a search link.
    pub fn remove_search(&mut self)
        ensures
            old(self).view().len() != 6 && old(self).view().len() > 0 ==> final(self).view()
                == old(self).view().drop_last(),
            old(self).view().len() == 6 || old(self).view().len() == 0 ==> final(self).view()
                == old(self).view(),
            old(self).wf() ==> final(self).wf() && final(self).view().len() == 6,
    {
        if self.has_search() {
            self.0.pop();
        }
    }

    /// Whether the links hold more than the default ones: a search link.
    pub fn has_search(&self) -> (has: bool)
        ensures
            has == (self.view().len() != 6),
    {
        self.0.len() != Self::new().0.len()
    }

    /// Sets the counts of the first five links, and the error mark of the
    /// sources, to what the API reported.
    pub fn update_count(&mut self, counts: &Counts)
        requires
            old(self).view().len() >= 5,
        ensures
            final(self).view().len() == old(self).view().len(),
            forall|i: int|
                5 <= i < old(self).view().len() ==> #[trigger] final(self).view()[i] == old(
                    self,
                ).view()[i],
            forall|i: int|
                0 <= i < 5 ==> same_target(#[trigger] final(self).view()[i], old(self).view()[i])
                    && final(self).view()[i].has_error == (if i == 4 {
                    counts.sources_has_error
                } else {
                    old(self).view()[i].has_error
                }),
            final(self).view()[0].count == counts.all,
            final(self).view()[1].count == counts.unread,
            final(self).view()[2].count == counts.favorites,
            final(self).view()[3].count == counts.tags,
            final(self).view()[4].count == counts.sources,
            old(self).wf() ==> final(self).wf(),
    {
        let mut link = self.0[0].clone();
        link.count = counts.all;
        self.0.set(0, link);
        let mut link = self.0[1].clone();
        link.count = counts.unread;
        self.0.set(1, link);
        let mut link = self.0[2].clone();
        link.count = counts.favorites;
        self.0.set(2, link);
        let mut link = self.0[3].clone();
        link.count = counts.tags;
        self.0.set(3, link);
        let mut link = self.0[4].clone();
        link.count = counts.sources;
        link.has_error = counts.sources_has_error;
        self.0.set(4, link);
    }

    /// The links of the sidebar on the page `current_route`: the default
    /// links with the counts of `counts`, and the link to the search when the
    /// page is a search.
    pub fn for_page(counts: &Counts, current_route: &Route) -> (links: Self)
        ensures
            links.wf(),
            links.view() == (if current_route is Search {
                counted_links(*counts).push(search_link(*current_route))
            } else {
                counted_links(*counts)
            }),
            links_count_by_route(links.view(), *counts),
    {
        proof {
            lemma_counted_links_by_route(*counts);
        }
        let mut links = Links::new();
        links.update_count(counts);

        assert(links.view() =~= counted_links(*counts));

        if matches!(current_route, Route::Search { .. }) {
            links.add_search(current_route);
        } else {
            links.remove_search();
        }

        links
    }
}

/// The sidebar starts without a search link.
pub proof fn lemma_new_has_no_search()
    ensures
        default_links().len() == 6,
{
}

/// Adding the link to a search, then removing it, gives back the links.
pub proof fn lemma_add_then_remove_search(links: Seq<Link>, route: Route)
    requires
        links.len() == 6,
    ensures
        links.push(search_link(route)).len() == 7,
        links.push(search_link(route)).drop_last() == links,
{
    assert(links.push(search_link(route)).drop_last() =~= links);
}

/// Removing the link to a search, then adding one, replaces the search.
pub proof fn lemma_remove_then_add_search(links: Seq<Link>, route: Route)
    requires
        links.len() == 7,
    ensures
        links.drop_last().len() == 6,
        links.drop_last().push(search_link(route)) == links.update(6, search_link(route)),
{
    assert(links.drop_last().push(search_link(route)) =~= links.update(6, search_link(route)));
}

impl std::ops::Deref for Links {
    type Target = Vec<Link>;

    fn deref(&self) -> (links: &Vec<Link>)
        ensures
            links@ == self.view(),
    {
        &self.0
    }
}

/// The name of the icon of the page.
pub fn favicon(sse_error: bool, unread: i64) -> (name: String)
    ensures
        name@ == favicon_name(sse_error, unread),
        sse_error ==> name@ == "error.svg"@,
        !sse_error && unread > 0 ==> names_unread_count(name@, unread as int),
        !sse_error && unread <= 0 ==> name@ == "default.svg"@,
{
    proof {
        lemma_favicon_names_unread(sse_error, unread);
    }
    if sse_error {
        "error.svg".to_string()
    } else if unread > 0 {
        let mut name = "unread-".to_string();
        let number = decimal_string(unread as u64);
        name.append(number.as_str());
        name.append(".svg");
        name
    } else {
        "default.svg".to_string()
    }
}

} // verus!
