use oxfeed_front::pager::{Component, Label, Pager};

fn pager(page: usize, last_page: usize) -> Pager {
    Pager {
        page,
        last_page,
        max_per_page: 20,
        has_previous_page: page > 1,
        has_next_page: page < last_page,
    }
}

#[test]
fn url_without_base() {
    let component = Component::create(String::new(), pager(1, 3));
    assert_eq!(component.url(2, 20), "?page=2&limit=20");
}

#[test]
fn url_appends_to_base() {
    let component = Component::create("/items".to_string(), pager(1, 3));
    assert_eq!(component.url(2, 50), "/items?page=2&limit=50");
    let component = Component::create("/search?q=rust".to_string(), pager(1, 3));
    assert_eq!(component.url(10, 20), "/search?q=rust&page=10&limit=20");
}

#[test]
fn single_page_has_no_pager() {
    let component = Component::create(String::new(), pager(1, 1));
    assert!(component.view().is_empty());
}

#[test]
fn pager_in_the_middle() {
    let component = Component::create(String::new(), pager(12, 30));
    let links = component.view();
    let labels: Vec<Label> = links.iter().map(|x| x.label).collect();
    let mut expected = vec![Label::Previous, Label::Number(1), Label::Ellipsis];
    expected.extend((8..=16).map(Label::Number));
    expected.extend([Label::Ellipsis, Label::Number(30), Label::Next]);
    assert_eq!(labels, expected);
    assert_eq!(links[0].href.as_deref(), Some("?page=11&limit=20"));
    assert_eq!(links[1].href.as_deref(), Some("?page=1&limit=20"));
    assert_eq!(links[2].href, None);
    assert_eq!(links[3].href.as_deref(), Some("?page=8&limit=20"));
    assert_eq!(links[7].label, Label::Number(12));
    assert_eq!(links[7].href, None);
    assert_eq!(links[13].href.as_deref(), Some("?page=30&limit=20"));
    assert_eq!(links[14].href.as_deref(), Some("?page=13&limit=20"));
}

#[test]
fn pager_at_the_start() {
    let component = Component::create(String::new(), pager(1, 4));
    let links = component.view();
    let labels: Vec<Label> = links.iter().map(|x| x.label).collect();
    assert_eq!(
        labels,
        vec![
            Label::Previous,
            Label::Number(1),
            Label::Number(2),
            Label::Number(3),
            Label::Number(4),
            Label::Next
        ]
    );
    assert_eq!(links[0].href, None);
    assert_eq!(links[1].href, None);
    assert_eq!(links[5].href.as_deref(), Some("?page=2&limit=20"));
}

#[test]
fn pager_at_the_end() {
    let component = Component::create(String::new(), pager(25, 25));
    let labels: Vec<Label> = component.view().iter().map(|x| x.label).collect();
    let mut expected = vec![Label::Previous, Label::Number(1), Label::Ellipsis];
    expected.extend((15..=25).map(Label::Number));
    expected.push(Label::Next);
    assert_eq!(labels, expected);
}

#[test]
fn pager_of_ten_pages_on_the_last_lists_page_zero() {
    let component = Component::create(String::new(), pager(10, 10));
    let labels: Vec<Label> = component.view().iter().map(|x| x.label).collect();
    let mut expected = vec![Label::Previous];
    expected.extend((0..=10).map(Label::Number));
    expected.push(Label::Next);
    assert_eq!(labels, expected);
}

#[test]
fn change_reports_new_properties() {
    let mut component = Component::create(String::new(), pager(1, 3));
    assert!(!component.change(String::new(), pager(1, 3)));
    assert!(component.change(String::new(), pager(2, 3)));
    assert!(component.change("/tags".to_string(), pager(2, 3)));
    assert_eq!(component.url(1, 20), "/tags?page=1&limit=20");
}
