//! The pager under a list: the links to the pages around the current one.
use crate::text::{decimal, decimal_string};
use vstd::prelude::*;

verus! {

/// Where a list stands among its pages.
#[derive(Clone, Copy, Debug, PartialEq, Eq, Structural)]
pub struct Pager {
    pub page: usize,
    pub last_page: usize,
    pub max_per_page: usize,
    pub has_previous_page: bool,
    pub has_next_page: bool,
}

/// The pager of a list, with the address its page links start from.
#[derive(Debug)]
pub struct Component {
    base_url: String,
    pager: Pager,
}

/// What a link of the pager shows.
#[derive(Clone, Copy, Debug, PartialEq, Eq, Structural)]
pub enum Label {
    /// `«`
    Previous,
    /// A page number.
    Number(usize),
    /// `…`
    Ellipsis,
    /// `»`
    Next,
}

/// A link of the pager; without an address it is the current page, a gap,
/// or a disabled arrow.
#[derive(Debug)]
pub struct PageLink {
    pub label: Label,
    pub href: Option<String>,
}

/// The address of page `page` showing `max` items per page, from `base`.
pub open spec fn page_url(base: Seq<char>, page: nat, max: nat) -> Seq<char> {
    let prefix = if base.len() == 0 {
        "?"@
    } else if base.contains('?') {
        base.push('&')
    } else {
        base.push('?')
    };
    prefix + "page="@ + decimal(page) + "&limit="@ + decimal(max)
}

/// The first and last page numbers that the pager lists around `page`.
pub open spec fn window(page: int, last_page: int) -> (int, int) {
    if page <= 9 {
        (1, if 10 <= last_page {
            10
        } else {
            last_page
        })
    } else if page >= last_page - 9 {
        (last_page - 10, last_page)
    } else {
        (page - 4, page + 4)
    }
}

/// The page numbers `start..=end`, each linking to its page but the
/// current one.
pub open spec fn number_links(start: int, end: int, page: int) -> Seq<(Label, Option<nat>)> {
    Seq::new(
        (end - start + 1) as nat,
        |k: int|
            (Label::Number((start + k) as usize), if start + k == page {
                None
            } else {
                Some((start + k) as nat)
            }),
    )
}

/// The links of the pager of `pager`: each with its label and the page it
/// links to, if any. A list of one page has none.
pub open spec fn pager_links(pager: Pager) -> Seq<(Label, Option<nat>)> {
    if pager.last_page <= 1 {
        seq![]
    } else {
        let (start, end) = window(pager.page as int, pager.last_page as int);
        let previous = if pager.has_previous_page {
            Some((pager.page - 1) as nat)
        } else {
            None
        };
        let next = if pager.has_next_page {
            Some((pager.page + 1) as nat)
        } else {
            None
        };
        let head = if start > 1 {
            seq![(Label::Number(1), Some(1nat)), (Label::Ellipsis, None)]
        } else {
            seq![]
        };
        let tail = if end < pager.last_page {
            seq![(Label::Ellipsis, None), (Label::Number(pager.last_page), Some(pager.last_page as nat))]
        } else {
            seq![]
        };
        seq![(Label::Previous, previous)] + head + number_links(start, end, pager.page as int) + tail
            + seq![(Label::Next, next)]
    }
}

/// The pager can be drawn without an arithmetic overflow.
pub open spec fn drawable(pager: Pager) -> bool {
    &&& pager.page <= 9 || pager.last_page >= 10
    &&& pager.last_page < usize::MAX
    &&& pager.has_previous_page ==> pager.page >= 1
    &&& pager.has_next_page ==> pager.page < usize::MAX
}

/// `link` is the link `model` whose page is addressed from `base`.
pub open spec fn link_matches(link: PageLink, model: (Label, Option<nat>), base: Seq<char>, max: nat) -> bool {
    &&& link.label == model.0
    &&& (link.href is None <==> model.1 is None)
    &&& model.1 matches Some(p) ==> link.href.unwrap()@ == page_url(base, p, max)
}

/// Some link of `links` shows page `p`, and leads to its address from `base`
/// unless `p` is the current page `current`.
pub open spec fn reaches(links: Seq<PageLink>, p: usize, current: usize, base: Seq<char>, max: nat) -> bool {
    exists|i: int|
        0 <= i < links.len() && (#[trigger] links[i]).label == Label::Number(p) && (if p == current {
            links[i].href is None
        } else {
            links[i].href is Some && links[i].href.unwrap()@ == page_url(base, p as nat, max)
        })
}

/// Whether `s` holds the character `c`.
fn contains_char(s: &str, c: char) -> (found: bool)
    ensures
        found == s@.contains(c),
{
    let n = s.unicode_len();
    let mut i: usize = 0;
    while i < n
        invariant
            n == s@.len(),
            i <= n,
            forall|k: int| 0 <= k < i ==> s@[k] != c,
        decreases n - i,
    {
        if s.get_char(i) == c {
            assert(s@[i as int] == c);
            return true;
        }
        i += 1;
    }
    false
}

impl Component {
    /// The pager of `pager`, with page links starting from `base_url`.
    pub fn create(base_url: String, pager: Pager) -> (component: Self)
        ensures
            component.base_url() == base_url@,
            component.pager() == pager,
    {
        Self { base_url, pager }
    }

    /// The address the page links start from.
    pub closed spec fn base_url(&self) -> Seq<char> {
        self.base_url@
    }

    /// The position the pager shows.
    pub closed spec fn pager(&self) -> Pager {
        self.pager
    }

    /// The address of page `page` showing `max_per_page` items per page.
    pub fn url(&self, page: usize, max_per_page: usize) -> (url: String)
        ensures
            url@ == page_url(self.base_url(), page as nat, max_per_page as nat),
    {
        let mut url = self.base_url.clone();

        if url.as_str().is_empty() {
            url = "?".to_string();
        } else {
            if !contains_char(url.as_str(), '?') {
                crate::text::push_char(&mut url, '?');
            } else {
                crate::text::push_char(&mut url, '&');
            }
        }

        url.append("page=");
        url.append(decimal_string(page as u64).as_str());
        url.append("&limit=");
        url.append(decimal_string(max_per_page as u64).as_str());
        url
    }

    /// Takes new properties; tells whether they differ from the old ones.
    pub fn change(&mut self, base_url: String, pager: Pager) -> (should_render: bool)
        ensures
            should_render == (old(self).base_url() != base_url@ || old(self).pager() != pager),
            final(self).base_url() == base_url@,
            final(self).pager() == pager,
    {
        let should_render = self.base_url != base_url || self.pager != pager;

        self.base_url = base_url;
        self.pager = pager;

        should_render
    }

    /// The first and last page numbers listed.
    fn bounds(&self) -> (bounds: (usize, usize))
        requires
            drawable(self.pager),
        ensures
            bounds.0 as int == window(self.pager.page as int, self.pager.last_page as int).0,
            bounds.1 as int == window(self.pager.page as int, self.pager.last_page as int).1,
    {
        if self.pager.page <= 9 {
            (1, if 10 <= self.pager.last_page { 10 } else { self.pager.last_page })
        } else if self.pager.page >= self.pager.last_page - 9 {
            (self.pager.last_page - 10, self.pager.last_page)
        } else {
            (self.pager.page - 4, self.pager.page + 4)
        }
    }

    /// The link to page `page`, without address when `address` is false.
    fn link(&self, label: Label, page: usize, address: bool) -> (link: PageLink)
        ensures
            link.label == label,
            link.href is None <==> !address,
            address ==> link.href.unwrap()@ == page_url(
                self.base_url(),
                page as nat,
                self.pager.max_per_page as nat,
            ),
    {
        if address {
            PageLink { label, href: Some(self.url(page, self.pager.max_per_page)) }
        } else {
            PageLink { label, href: None }
        }
    }

    /// The links of the pager, in order: the previous-page arrow, the first
    /// page and a gap when the window starts later, the pages of the window,
    /// a gap and the last page when the window ends sooner, the next-page
    /// arrow. A list of one page has no pager.
    pub fn view(&self) -> (links: Vec<PageLink>)
        requires
            drawable(self.pager()),
        ensures
            links@.len() == pager_links(self.pager()).len(),
            forall|i: int|
                0 <= i < links@.len() ==> link_matches(
                    #[trigger] links@[i],
                    pager_links(self.pager())[i],
                    self.base_url(),
                    self.pager().max_per_page as nat,
                ),
            1 <= self.pager().page <= self.pager().last_page && self.pager().last_page > 1 ==> reaches(
                links@,
                self.pager().last_page,
                self.pager().page,
                self.base_url(),
                self.pager().max_per_page as nat,
            ),
            1 <= self.pager().page <= self.pager().last_page && self.pager().last_page > 1 ==> reaches(
                links@,
                1,
                self.pager().page,
                self.base_url(),
                self.pager().max_per_page as nat,
            ),
    {
        let mut links: Vec<PageLink> = Vec::new();
        if self.pager.last_page <= 1 {
            return links;
        }
        let ghost model = pager_links(self.pager);
        let ghost base = self.base_url@;
        let ghost max = self.pager.max_per_page as nat;
        let (start, end) = self.bounds();
        let ghost (s, e) = window(self.pager.page as int, self.pager.last_page as int);
        let ghost head: Seq<(Label, Option<nat>)> = if s > 1 {
            seq![(Label::Number(1), Some(1nat)), (Label::Ellipsis, None)]
        } else {
            seq![]
        };
        let ghost numbers = number_links(s, e, self.pager.page as int);

        let page = self.pager.page;
        let previous = if self.pager.has_previous_page {
            self.link(Label::Previous, page - 1, true)
        } else {
            self.link(Label::Previous, 0, false)
        };
        links.push(previous);

        if start > 1 {
            links.push(self.link(Label::Number(1), 1, true));
            links.push(PageLink { label: Label::Ellipsis, href: None });
        }
        let ghost prefix = seq![(Label::Previous, model[0].1)] + head;
        assert(links@.len() == prefix.len());
        assert(forall|k: int| 0 <= k < links@.len() ==> link_matches(#[trigger] links@[k], prefix[k], base, max));

        let mut i: usize = start;
        while i <= end
            invariant
                start <= i <= end + 1,
                end < usize::MAX,
                start as int == s,
                end as int == e,
                s <= e + 1,
                numbers == number_links(s, e, self.pager.page as int),
                page == self.pager.page,
                base == self.base_url@,
                max == self.pager.max_per_page as nat,
                links@.len() == prefix.len() + (i - start),
                forall|k: int|
                    0 <= k < links@.len() ==> link_matches(
                        #[trigger] links@[k],
                        if k < prefix.len() {
                            prefix[k]
                        } else {
                            numbers[k - prefix.len()]
                        },
                        base,
                        max,
                    ),
            decreases end + 1 - i,
        {
            let link = self.link(Label::Number(i), i, i != page);
            assert(numbers[i - start] == (Label::Number(i), if i == page {
                None
            } else {
                Some(i as nat)
            }));
            links.push(link);
            i += 1;
        }
        let ghost tail: Seq<(Label, Option<nat>)> = if e < self.pager.last_page {
            seq![(Label::Ellipsis, None), (Label::Number(self.pager.last_page), Some(self.pager.last_page as nat))]
        } else {
            seq![]
        };
        if end < self.pager.last_page {
            links.push(PageLink { label: Label::Ellipsis, href: None });
            links.push(self.link(Label::Number(self.pager.last_page), self.pager.last_page, true));
        }
        let next = if self.pager.has_next_page {
            self.link(Label::Next, page + 1, true)
        } else {
            self.link(Label::Next, 0, false)
        };
        links.push(next);
        let ghost next_model = seq![(Label::Next, if self.pager.has_next_page { Some((page + 1) as nat) } else { None })];
        assert(model =~= prefix + numbers + tail + next_model);
        assert forall|k: int| 0 <= k < links@.len() implies link_matches(
            #[trigger] links@[k],
            model[k],
            base,
            max,
        ) by {
            if k < prefix.len() {
                assert(model[k] == prefix[k]);
            } else if k < prefix.len() + numbers.len() {
                assert(model[k] == numbers[k - prefix.len()]);
            }
        }
        proof {
            if 1 <= page <= self.pager.last_page {
                let pager = self.pager;
                lemma_last_page_reachable(pager);
                let w = choose|w: int| 0 <= w < model.len() && model[w] == link_to(pager, pager.last_page);
                assert(link_matches(links@[w], model[w], base, max));
                assert(reaches(links@, pager.last_page, page, base, max));
                lemma_first_page_reachable(pager);
                let f = choose|f: int| 0 <= f < model.len() && model[f] == link_to(pager, 1);
                assert(link_matches(links@[f], model[f], base, max));
                assert(reaches(links@, 1, page, base, max));
            }
        }
        links
    }
}

} // verus!

verus! {

/// The listed pages hold the current page and end at most at the last
/// page.
pub proof fn lemma_window_holds_page(pager: Pager)
    requires
        drawable(pager),
        1 <= pager.page <= pager.last_page,
    ensures
        0 <= window(pager.page as int, pager.last_page as int).0 <= pager.page,
        pager.page <= window(pager.page as int, pager.last_page as int).1 <= pager.last_page,
{
}

/// The pager of a list of several pages starts with the arrow to the
/// previous page and ends with the arrow to the next page; the current
/// page, when listed, is the one page number without an address.
pub proof fn lemma_pager_frame(pager: Pager)
    requires
        pager.last_page > 1,
    ensures
        pager_links(pager).len() >= 2,
        pager_links(pager)[0].0 == Label::Previous,
        pager_links(pager)[pager_links(pager).len() - 1].0 == Label::Next,
        forall|i: int|
            0 <= i < pager_links(pager).len() && (#[trigger] pager_links(pager)[i]).0 is Number
                && pager_links(pager)[i].1 is None ==> pager_links(pager)[i].0 == Label::Number(
                pager.page,
            ),
{
    let (start, end) = window(pager.page as int, pager.last_page as int);
    let links = pager_links(pager);
    assert forall|i: int|
        0 <= i < links.len() && (#[trigger] links[i]).0 is Number && links[i].1 is None implies links[i].0
        == Label::Number(pager.page) by {
        let head: Seq<(Label, Option<nat>)> = if start > 1 {
            seq![(Label::Number(1), Some(1nat)), (Label::Ellipsis, None)]
        } else {
            seq![]
        };
        let numbers = number_links(start, end, pager.page as int);
        let k = i - 1 - head.len();
        if 0 <= k < numbers.len() {
            assert(links[i] == numbers[k]);
        }
    }
}

} // verus!

verus! {

/// The link that the pager of `pager` gives to page `p`: a number that
/// addresses the page, unless it is the current one.
pub open spec fn link_to(pager: Pager, p: usize) -> (Label, Option<nat>) {
    (Label::Number(p), if p == pager.page {
        None
    } else {
        Some(p as nat)
    })
}

/// The last page is always reachable: the pager of a list of several pages
/// holds a link to its last page, addressed unless it is the current page.
pub proof fn lemma_last_page_reachable(pager: Pager)
    requires
        drawable(pager),
        1 <= pager.page <= pager.last_page,
        pager.last_page > 1,
    ensures
        exists|i: int|
            0 <= i < pager_links(pager).len() && pager_links(pager)[i] == link_to(
                pager,
                pager.last_page,
            ),
{
    let links = pager_links(pager);
    let (s, e) = window(pager.page as int, pager.last_page as int);
    let head: Seq<(Label, Option<nat>)> = if s > 1 {
        seq![(Label::Number(1), Some(1nat)), (Label::Ellipsis, None)]
    } else {
        seq![]
    };
    let numbers = number_links(s, e, pager.page as int);
    if e < pager.last_page {
        let i = links.len() - 2;
        assert(links[i] == link_to(pager, pager.last_page));
    } else {
        let i = 1 + head.len() + (pager.last_page - s);
        assert(numbers[pager.last_page - s] == link_to(pager, pager.last_page));
        assert(links[i] == link_to(pager, pager.last_page));
    }
}

/// The first page is always reachable: the pager of a list of several
/// pages holds a link to page 1, addressed unless it is the current page.
pub proof fn lemma_first_page_reachable(pager: Pager)
    requires
        drawable(pager),
        1 <= pager.page <= pager.last_page,
        pager.last_page > 1,
    ensures
        exists|i: int| 0 <= i < pager_links(pager).len() && pager_links(pager)[i] == link_to(pager, 1),
{
    let links = pager_links(pager);
    let (s, e) = window(pager.page as int, pager.last_page as int);
    let head: Seq<(Label, Option<nat>)> = if s > 1 {
        seq![(Label::Number(1), Some(1nat)), (Label::Ellipsis, None)]
    } else {
        seq![]
    };
    let numbers = number_links(s, e, pager.page as int);
    if s > 1 {
        assert(pager.page != 1);
        assert(links[1] == link_to(pager, 1));
    } else {
        let i = 1 + (1 - s);
        assert(numbers[1 - s] == link_to(pager, 1));
        assert(links[i] == link_to(pager, 1));
    }
}

/// When the listed pages stop before the last page, the pager ends with a
/// gap, the link to the last page and the arrow to the next page.
pub proof fn lemma_tail_after_window(pager: Pager)
    requires
        drawable(pager),
        pager.last_page > 1,
        window(pager.page as int, pager.last_page as int).1 < pager.last_page,
    ensures
        pager_links(pager).len() >= 3,
        pager_links(pager)[pager_links(pager).len() - 3] == (Label::Ellipsis, None::<nat>),
        pager_links(pager)[pager_links(pager).len() - 2] == (
            Label::Number(pager.last_page),
            Some(pager.last_page as nat),
        ),
        pager_links(pager)[pager_links(pager).len() - 1].0 == Label::Next,
{
}

} // verus!
