//! The selection of items in the list of items: checking one item or a
//! range of items, selecting all or none, and taking the selected items for
//! a bulk action.
use vstd::prelude::*;

verus! {

/// An item of the list, by its identifier, with whether it is selected.
#[derive(Clone, Copy, Debug, PartialEq, Eq, Structural)]
pub struct Entry {
    pub id: u128,
    pub selected: bool,
}

/// A click on the checkbox of an item: the item, whether the click extends
/// a range (shift held), and whether the box becomes checked.
#[derive(Clone, Copy, Debug, PartialEq, Eq, Structural)]
pub struct ToggleEvent {
    pub item: u128,
    pub multiple: bool,
    pub active: bool,
}

/// A choice of the bulk-selection menu.
#[derive(Clone, Copy, Debug, PartialEq, Eq, Structural)]
pub enum Selection {
    All,
    Nothing,
}

/// `p` is the first position of the item `id` in `items`.
pub open spec fn is_first_position(items: Seq<Entry>, id: u128, p: int) -> bool {
    &&& 0 <= p < items.len()
    &&& items[p].id == id
    &&& forall|k: int| 0 <= k < p ==> items[k].id != id
}

/// `j` is the first selected position at or after `current`.
pub open spec fn is_next_selected(items: Seq<Entry>, current: int, j: int) -> bool {
    &&& current <= j < items.len()
    &&& items[j].selected
    &&& forall|k: int| current <= k < j ==> !items[k].selected
}

/// `j` is the last selected position before `current`.
pub open spec fn is_previous_selected(items: Seq<Entry>, current: int, j: int) -> bool {
    &&& 0 <= j < current
    &&& items[j].selected
    &&& forall|k: int| j < k < current ==> !items[k].selected
}

/// The selected position nearest to `current` that a range selection
/// extends to: the first selected one at or after `current`, else the last
/// selected one before it, else the first position.
pub open spec fn near_index(items: Seq<Entry>, current: int) -> int {
    if exists|j: int| is_next_selected(items, current, j) {
        choose|j: int| is_next_selected(items, current, j)
    } else if exists|j: int| is_previous_selected(items, current, j) {
        choose|j: int| is_previous_selected(items, current, j)
    } else {
        0
    }
}

/// `items` with the selection of the positions `lo..=hi` set to `active`.
pub open spec fn with_range(items: Seq<Entry>, lo: int, hi: int, active: bool) -> Seq<Entry> {
    Seq::new(
        items.len(),
        |i: int|
            if lo <= i <= hi {
                Entry { id: items[i].id, selected: active }
            } else {
                items[i]
            },
    )
}

/// The items after the click `event`: when the clicked item is in the list,
/// its checkbox (or, for a range click, every checkbox between it and the
/// nearest selected item) takes the new state; otherwise nothing changes.
pub open spec fn toggled(items: Seq<Entry>, event: ToggleEvent) -> Seq<Entry> {
    if exists|p: int| is_first_position(items, event.item, p) {
        let p = choose|p: int| is_first_position(items, event.item, p);
        let q = if event.multiple {
            near_index(items, p)
        } else {
            p
        };
        if p < q {
            with_range(items, p, q, event.active)
        } else {
            with_range(items, q, p, event.active)
        }
    } else {
        items
    }
}

/// The identifiers of the selected items, in order.
pub open spec fn selected_ids(items: Seq<Entry>) -> Seq<u128> {
    items.filter(|e: Entry| e.selected).map_values(|e: Entry| e.id)
}

proof fn lemma_next_selected_unique(items: Seq<Entry>, current: int, a: int, b: int)
    requires
        is_next_selected(items, current, a),
        is_next_selected(items, current, b),
    ensures
        a == b,
{
}

proof fn lemma_previous_selected_unique(items: Seq<Entry>, current: int, a: int, b: int)
    requires
        is_previous_selected(items, current, a),
        is_previous_selected(items, current, b),
    ensures
        a == b,
{
}

/// The position that a range selection from `current` extends to.
pub fn near(current: usize, items: &[Entry]) -> (pos: usize)
    requires
        current <= items@.len(),
    ensures
        pos == near_index(items@, current as int),
{
    let mut j: usize = current;
    while j < items.len()
        invariant
            current <= j <= items@.len(),
            forall|k: int| current <= k < j ==> !items@[k].selected,
        decreases items@.len() - j,
    {
        if items[j].selected {
            proof {
                assert(is_next_selected(items@, current as int, j as int));
                let c = choose|c: int| is_next_selected(items@, current as int, c);
                lemma_next_selected_unique(items@, current as int, c, j as int);
            }
            return j;
        }
        j += 1;
    }
    assert(!exists|c: int| is_next_selected(items@, current as int, c));
    let mut j: usize = current;
    while j > 0
        invariant
            j <= current <= items@.len(),
            forall|k: int| current <= k < items@.len() ==> !items@[k].selected,
            forall|k: int| j <= k < current ==> !items@[k].selected,
        decreases j,
    {
        if items[j - 1].selected {
            proof {
                assert(is_previous_selected(items@, current as int, j - 1));
                let c = choose|c: int| is_previous_selected(items@, current as int, c);
                lemma_previous_selected_unique(items@, current as int, c, j - 1);
            }
            return j - 1;
        }
        j -= 1;
    }
    assert(!exists|c: int| is_previous_selected(items@, current as int, c));
    0
}

/// Sets the selection of the positions `lo..=hi` to `active`.
fn set_range(items: &mut Vec<Entry>, lo: usize, hi: usize, active: bool)
    requires
        lo <= hi < old(items)@.len(),
    ensures
        final(items)@ == with_range(old(items)@, lo as int, hi as int, active),
{
    let ghost start = items@;
    let n = items.len();
    let mut x: usize = lo;
    while x <= hi
        invariant
            n == start.len(),
            lo <= x <= hi + 1,
            hi < start.len(),
            items@.len() == start.len(),
            forall|i: int|
                0 <= i < start.len() ==> #[trigger] items@[i] == (if lo <= i < x {
                    Entry { id: start[i].id, selected: active }
                } else {
                    start[i]
                }),
        decreases hi + 1 - x,
    {
        let id = items[x].id;
        items.set(x, Entry { id, selected: active });
        x += 1;
    }
    assert(items@ =~= with_range(start, lo as int, hi as int, active));
}

/// Applies the click `event` to the list of items.
pub fn select(items: &mut Vec<Entry>, event: ToggleEvent)
    ensures
        final(items)@ == toggled(old(items)@, event),
{
    let ghost start = items@;
    let mut current: usize = 0;
    while current < items.len() && items[current].id != event.item
        invariant
            items@ == start,
            current <= start.len(),
            forall|k: int| 0 <= k < current ==> start[k].id != event.item,
        decreases start.len() - current,
    {
        current += 1;
    }
    if current == items.len() {
        assert(!exists|p: int| is_first_position(start, event.item, p));
        return;
    }
    proof {
        assert(is_first_position(start, event.item, current as int));
        let p = choose|p: int| is_first_position(start, event.item, p);
        assert(p == current);
    }

    let (lo, hi) = if event.multiple {
        let near = near(current, items.as_slice());
        if current < near {
            (current, near)
        } else {
            (near, current)
        }
    } else {
        (current, current)
    };
    proof {
        if event.multiple {
            let n = near_index(start, current as int);
            if exists|j: int| is_next_selected(start, current as int, j) {
                let j = choose|j: int| is_next_selected(start, current as int, j);
                assert(n == j);
            } else if exists|j: int| is_previous_selected(start, current as int, j) {
                let j = choose|j: int| is_previous_selected(start, current as int, j);
                assert(n == j);
            }
        }
    }
    set_range(items, lo, hi, event.active);
}

/// Checks every item (`All`) or none (`Nothing`).
pub fn select_all(items: &mut Vec<Entry>, selection: Selection)
    ensures
        final(items)@.len() == old(items)@.len(),
        forall|i: int|
            0 <= i < old(items)@.len() ==> #[trigger] final(items)@[i].id == old(items)@[i].id
                && final(items)@[i].selected == (selection == Selection::All),
{
    let active = matches!(selection, Selection::All);
    let ghost start = items@;
    let mut x: usize = 0;
    while x < items.len()
        invariant
            x <= items@.len(),
            items@.len() == start.len(),
            forall|i: int|
                0 <= i < start.len() ==> #[trigger] items@[i] == (if i < x {
                    Entry { id: start[i].id, selected: active }
                } else {
                    start[i]
                }),
        decreases start.len() - x,
    {
        let id = items[x].id;
        items.set(x, Entry { id, selected: active });
        x += 1;
    }
}

/// Takes the selected items for a bulk action: gives their identifiers, in
/// order, and unchecks them.
pub fn take_selected(items: &mut Vec<Entry>) -> (ids: Vec<u128>)
    ensures
        ids@ == selected_ids(old(items)@),
        final(items)@.len() == old(items)@.len(),
        forall|i: int|
            0 <= i < old(items)@.len() ==> #[trigger] final(items)@[i].id == old(items)@[i].id
                && !final(items)@[i].selected,
{
    let ghost start = items@;
    let mut ids: Vec<u128> = Vec::new();
    let mut x: usize = 0;
    while x < items.len()
        invariant
            x <= items@.len(),
            items@.len() == start.len(),
            forall|i: int|
                0 <= i < start.len() ==> #[trigger] items@[i] == (if i < x {
                    Entry { id: start[i].id, selected: false }
                } else {
                    start[i]
                }),
            ids@ == selected_ids(start.take(x as int)),
        decreases start.len() - x,
    {
        let entry = items[x];
        proof {
            reveal_with_fuel(Seq::<Entry>::filter, 1);
            assert(start.take(x + 1).drop_last() =~= start.take(x as int));
        }
        if entry.selected {
            ids.push(entry.id);
            items.set(x, Entry { id: entry.id, selected: false });
        }
        x += 1;
    }
    assert(start.take(start.len() as int) =~= start);
    ids
}

/// The entries of a freshly loaded page: every item, unchecked.
pub fn entries(ids: &Vec<u128>) -> (items: Vec<Entry>)
    ensures
        items@.len() == ids@.len(),
        forall|i: int|
            0 <= i < ids@.len() ==> #[trigger] items@[i] == (Entry { id: ids@[i], selected: false }),
{
    let mut items: Vec<Entry> = Vec::new();
    let mut x: usize = 0;
    while x < ids.len()
        invariant
            x <= ids@.len(),
            items@.len() == x,
            forall|i: int|
                0 <= i < x ==> #[trigger] items@[i] == (Entry { id: ids@[i], selected: false }),
        decreases ids@.len() - x,
    {
        items.push(Entry { id: ids[x], selected: false });
        x += 1;
    }
    items
}

/// What a freshly loaded page leads to: an empty page past the first sends
/// back to the page before it; any other page is shown.
pub fn page_to_load_instead(is_empty: bool, page: usize) -> (previous: Option<usize>)
    ensures
        previous == (if is_empty && page > 1 {
            Some((page - 1) as usize)
        } else {
            None
        }),
{
    if is_empty && page > 1 {
        Some(page - 1)
    } else {
        None
    }
}

} // verus!

verus! {

/// A click keeps the list: the same items, in the same order.
pub proof fn lemma_toggle_keeps_items(items: Seq<Entry>, event: ToggleEvent)
    ensures
        toggled(items, event).len() == items.len(),
        forall|i: int| 0 <= i < items.len() ==> #[trigger] toggled(items, event)[i].id == items[i].id,
{
}

/// A click on an item that is not in the list changes nothing.
pub proof fn lemma_click_outside_list(items: Seq<Entry>, event: ToggleEvent)
    requires
        forall|k: int| 0 <= k < items.len() ==> items[k].id != event.item,
    ensures
        toggled(items, event) == items,
{
}

/// A simple click sets the clicked item, and only it.
pub proof fn lemma_single_click(items: Seq<Entry>, event: ToggleEvent, p: int)
    requires
        !event.multiple,
        is_first_position(items, event.item, p),
    ensures
        toggled(items, event)[p].selected == event.active,
        forall|i: int| 0 <= i < items.len() && i != p ==> #[trigger] toggled(items, event)[i] == items[i],
{
    let q = choose|q: int| is_first_position(items, event.item, q);
    assert(q == p);
}

/// A range selection extends to a selected item whenever there is one.
pub proof fn lemma_near_is_selected(items: Seq<Entry>, current: int)
    requires
        0 <= current <= items.len(),
        exists|j: int| 0 <= j < items.len() && items[j].selected,
    ensures
        0 <= near_index(items, current) < items.len(),
        items[near_index(items, current)].selected,
{
    let j = choose|j: int| 0 <= j < items.len() && items[j].selected;
    if j >= current {
        lemma_next_exists(items, current, j);
    } else {
        if !exists|n: int| is_next_selected(items, current, n) {
            lemma_previous_exists(items, current, j);
        }
    }
}

/// When some item at or after `current` is selected, there is a first one.
proof fn lemma_next_exists(items: Seq<Entry>, current: int, j: int)
    requires
        current <= j < items.len(),
        items[j].selected,
    ensures
        exists|n: int| is_next_selected(items, current, n),
    decreases j - current,
{
    if exists|k: int| current <= k < j && items[k].selected {
        let k = choose|k: int| current <= k < j && items[k].selected;
        lemma_next_exists(items, current, k);
    } else {
        assert(is_next_selected(items, current, j));
    }
}

/// When some item before `current` is selected, there is a last one.
proof fn lemma_previous_exists(items: Seq<Entry>, current: int, j: int)
    requires
        0 <= j < current,
        items[j].selected,
    ensures
        exists|n: int| is_previous_selected(items, current, n),
    decreases current - j,
{
    if exists|k: int| j < k < current && items[k].selected {
        let k = choose|k: int| j < k < current && items[k].selected;
        lemma_previous_exists(items, current, k);
    } else {
        assert(is_previous_selected(items, current, j));
    }
}

/// A range click sets the clicked item, the item the range extends to, and
/// every item between them; it leaves the others as they were.
pub proof fn lemma_range_click(items: Seq<Entry>, event: ToggleEvent, p: int)
    requires
        event.multiple,
        is_first_position(items, event.item, p),
    ensures
        forall|i: int|
            0 <= i < items.len() ==> #[trigger] toggled(items, event)[i].selected == (if (p <= i
                <= near_index(items, p)) || (near_index(items, p) <= i <= p) {
                event.active
            } else {
                items[i].selected
            }),
{
    let q = choose|q: int| is_first_position(items, event.item, q);
    assert(q == p);
}

/// When every item is selected, a bulk action takes every item, in order.
pub proof fn lemma_take_all_selected(items: Seq<Entry>)
    requires
        forall|i: int| 0 <= i < items.len() ==> #[trigger] items[i].selected,
    ensures
        selected_ids(items) == items.map_values(|e: Entry| e.id),
    decreases items.len(),
{
    reveal_with_fuel(Seq::<Entry>::filter, 1);
    if items.len() > 0 {
        let rest = items.drop_last();
        lemma_take_all_selected(rest);
        assert(items.filter(|e: Entry| e.selected) =~= rest.filter(|e: Entry| e.selected).push(
            items.last(),
        ));
        assert(items.map_values(|e: Entry| e.id) =~= rest.map_values(|e: Entry| e.id).push(
            items.last().id,
        ));
    } else {
        assert(items.filter(|e: Entry| e.selected) =~= Seq::<Entry>::empty());
    }
    assert(selected_ids(items) =~= items.map_values(|e: Entry| e.id));
}

/// When no item is selected, a bulk action takes nothing.
pub proof fn lemma_take_none_selected(items: Seq<Entry>)
    requires
        forall|i: int| 0 <= i < items.len() ==> !#[trigger] items[i].selected,
    ensures
        selected_ids(items) == Seq::<u128>::empty(),
    decreases items.len(),
{
    reveal_with_fuel(Seq::<Entry>::filter, 1);
    if items.len() > 0 {
        lemma_take_none_selected(items.drop_last());
        assert(items.filter(|e: Entry| e.selected) =~= items.drop_last().filter(|e: Entry| e.selected));
    } else {
        assert(items.filter(|e: Entry| e.selected) =~= Seq::<Entry>::empty());
    }
    assert(selected_ids(items) =~= Seq::<u128>::empty());
}

} // verus!
