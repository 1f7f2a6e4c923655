use oxfeed_front::items::{
    entries, near, page_to_load_instead, select, select_all, take_selected, Entry, Selection,
    ToggleEvent,
};

fn list(selected: &[bool]) -> Vec<Entry> {
    selected
        .iter()
        .enumerate()
        .map(|(i, s)| Entry { id: 100 + i as u128, selected: *s })
        .collect()
}

fn flags(items: &[Entry]) -> Vec<bool> {
    items.iter().map(|x| x.selected).collect()
}

#[test]
fn near_finds_next_selected() {
    let items = list(&[false, false, false, true, false, true]);
    assert_eq!(near(1, &items), 3);
    assert_eq!(near(3, &items), 3);
}

#[test]
fn near_falls_back_to_previous_selected() {
    let items = list(&[false, true, false, true, false, false]);
    assert_eq!(near(4, &items), 3);
    assert_eq!(near(6, &items), 3);
}

#[test]
fn near_without_selection_is_first_position() {
    let items = list(&[false, false, false]);
    assert_eq!(near(2, &items), 0);
    assert_eq!(near(0, &[]), 0);
}

#[test]
fn single_click_sets_only_the_item() {
    let mut items = list(&[false, true, false, false]);
    select(&mut items, ToggleEvent { item: 102, multiple: false, active: true });
    assert_eq!(flags(&items), vec![false, true, true, false]);
    select(&mut items, ToggleEvent { item: 101, multiple: false, active: false });
    assert_eq!(flags(&items), vec![false, false, true, false]);
}

#[test]
fn range_click_extends_to_next_selected() {
    let mut items = list(&[false, false, false, false, true, false]);
    select(&mut items, ToggleEvent { item: 101, multiple: true, active: true });
    assert_eq!(flags(&items), vec![false, true, true, true, true, false]);
}

#[test]
fn range_click_extends_back_to_previous_selected() {
    let mut items = list(&[false, true, false, false, false, false]);
    select(&mut items, ToggleEvent { item: 104, multiple: true, active: true });
    assert_eq!(flags(&items), vec![false, true, true, true, true, false]);
}

#[test]
fn range_click_without_selection_reaches_the_top() {
    let mut items = list(&[false, false, false, false]);
    select(&mut items, ToggleEvent { item: 102, multiple: true, active: true });
    assert_eq!(flags(&items), vec![true, true, true, false]);
}

#[test]
fn click_on_unknown_item_changes_nothing() {
    let mut items = list(&[true, false]);
    select(&mut items, ToggleEvent { item: 7, multiple: true, active: false });
    assert_eq!(items, list(&[true, false]));
}

#[test]
fn select_all_and_none() {
    let mut items = list(&[false, true, false]);
    select_all(&mut items, Selection::All);
    assert_eq!(flags(&items), vec![true, true, true]);
    select_all(&mut items, Selection::Nothing);
    assert_eq!(flags(&items), vec![false, false, false]);
}

#[test]
fn bulk_action_takes_selected_in_order() {
    let mut items = list(&[true, false, true, true]);
    assert_eq!(take_selected(&mut items), vec![100, 102, 103]);
    assert_eq!(flags(&items), vec![false, false, false, false]);
    assert_eq!(take_selected(&mut items), Vec::<u128>::new());
}

#[test]
fn select_all_then_take_gives_every_item() {
    let mut items = list(&[false, false, true]);
    select_all(&mut items, Selection::All);
    assert_eq!(take_selected(&mut items), vec![100, 101, 102]);
}

#[test]
fn fresh_page_is_unchecked() {
    let items = entries(&vec![5, 6]);
    assert_eq!(items, vec![Entry { id: 5, selected: false }, Entry { id: 6, selected: false }]);
}

#[test]
fn empty_page_goes_back_one_page() {
    assert_eq!(page_to_load_instead(true, 3), Some(2));
    assert_eq!(page_to_load_instead(true, 1), None);
    assert_eq!(page_to_load_instead(false, 3), None);
}
