//! The state of the forms: the password field that can be shown, the item
//! that can be expanded, the identifiers switched on a source, and the tags
//! of a source.
use crate::text::same_text;
use vstd::prelude::*;

verus! {

/// The type of the password field: hidden or shown as text.
#[derive(Clone, Copy, Debug, Default, PartialEq, Eq, Structural)]
pub enum InputType {
    #[default]
    Password,
    Text,
}

/// Whether an item shows its content.
#[derive(Clone, Copy, Debug, Default, PartialEq, Eq, Structural)]
pub enum Scene {
    #[default]
    Hidden,
    Expanded,
}

/// The icon of the button that switches the password field: an open eye
/// while the password is hidden, a crossed eye while it is shown.
pub open spec fn icon_of(input_type: InputType) -> &'static str {
    match input_type {
        InputType::Password => "eye",
        InputType::Text => "eye-slash",
    }
}

/// The `type` attribute of the password field.
pub open spec fn field_type_of(input_type: InputType) -> Seq<char> {
    match input_type {
        InputType::Password => "password"@,
        InputType::Text => "text"@,
    }
}

/// The other type of field.
pub open spec fn switched(input_type: InputType) -> InputType {
    match input_type {
        InputType::Password => InputType::Text,
        InputType::Text => InputType::Password,
    }
}

/// The other scene.
pub open spec fn flipped(scene: Scene) -> Scene {
    match scene {
        Scene::Expanded => Scene::Hidden,
        Scene::Hidden => Scene::Expanded,
    }
}

impl InputType {
    /// The icon of the switching button.
    pub fn icon(&self) -> (icon: &'static str)
        ensures
            icon == icon_of(*self),
    {
        if matches!(self, InputType::Password) {
            "eye"
        } else {
            "eye-slash"
        }
    }

    /// The `type` attribute of the field.
    pub fn to_string(&self) -> (name: String)
        ensures
            name@ == field_type_of(*self),
    {
        let s = match self {
            Self::Password => "password",
            Self::Text => "text",
        };

        s.to_string()
    }
}

impl std::ops::Not for InputType {
    type Output = Self;

    fn not(self) -> (other: Self::Output)
        ensures
            other == switched(self),
    {
        match self {
            Self::Password => Self::Text,
            Self::Text => Self::Password,
        }
    }
}

impl vstd::std_specs::ops::NotSpecImpl for InputType {
    open spec fn obeys_not_spec() -> bool {
        true
    }

    open spec fn not_req(self) -> bool {
        true
    }

    open spec fn not_spec(self) -> Self {
        switched(self)
    }
}

impl std::ops::Not for Scene {
    type Output = Self;

    fn not(self) -> (other: Self::Output)
        ensures
            other == flipped(self),
    {
        match self {
            Self::Expanded => Self::Hidden,
            Self::Hidden => Self::Expanded,
        }
    }
}

impl vstd::std_specs::ops::NotSpecImpl for Scene {
    open spec fn obeys_not_spec() -> bool {
        true
    }

    open spec fn not_req(self) -> bool {
        true
    }

    open spec fn not_spec(self) -> Self {
        flipped(self)
    }
}

/// Whether an identifier differs from `id`.
pub open spec fn other_than(id: u128) -> spec_fn(u128) -> bool {
    |x: u128| x != id
}

/// The identifiers `ids` once `id` is switched on (`active`) or off.
pub open spec fn switched_ids(ids: Seq<u128>, id: u128, active: bool) -> Seq<u128> {
    if active {
        if ids.contains(id) {
            ids
        } else {
            ids.push(id)
        }
    } else {
        ids.filter(other_than(id))
    }
}

/// Switches `id` on (adds it, unless present) or off (removes every copy of
/// it), as the switches of a source do for its webhooks and filters.
pub fn toggle_id(ids: &mut Vec<u128>, id: u128, active: bool)
    ensures
        final(ids)@ == switched_ids(old(ids)@, id, active),
{
    let ghost start = ids@;
    if active {
        let mut found = false;
        let mut i: usize = 0;
        while i < ids.len()
            invariant
                ids@ == start,
                i <= start.len(),
                found == exists|k: int| 0 <= k < i && start[k] == id,
            decreases start.len() - i,
        {
            if ids[i] == id {
                found = true;
            }
            i += 1;
        }
        if !found {
            ids.push(id);
        } else {
            assert(start.contains(id));
        }
    } else {
        let mut kept: Vec<u128> = Vec::new();
        let mut i: usize = 0;
        while i < ids.len()
            invariant
                ids@ == start,
                i <= start.len(),
                kept@ == start.take(i as int).filter(other_than(id)),
            decreases start.len() - i,
        {
            proof {
                reveal_with_fuel(Seq::<u128>::filter, 1);
                assert(start.take(i + 1).drop_last() =~= start.take(i as int));
            }
            if ids[i] != id {
                kept.push(ids[i]);
            }
            i += 1;
        }
        assert(start.take(start.len() as int) =~= start);
        *ids = kept;
    }
}

/// The texts of a list of tags.
pub open spec fn texts(tags: Seq<String>) -> Seq<Seq<char>> {
    tags.map_values(|t: String| t@)
}

/// The byte sequence `a` comes before `b`, or is `b`, in lexicographic order.
pub open spec fn bytes_le(a: Seq<u8>, b: Seq<u8>) -> bool {
    exists|k: int|
        #![trigger a.take(k), b.take(k)]
        0 <= k <= a.len() && k <= b.len() && a.take(k) == b.take(k) && (k == a.len() || (k
            < b.len() && a[k] < b[k]))
}

/// The tags are in the order of `String`: lexicographic on their UTF-8
/// bytes.
pub open spec fn sorted(tags: Seq<String>) -> bool {
    forall|i: int, j: int|
        0 <= i < j < tags.len() ==> bytes_le(
            vstd::utf8::encode_utf8(#[trigger] tags[i]@),
            vstd::utf8::encode_utf8(#[trigger] tags[j]@),
        )
}

/// `slice::sort` on strings. Claimed: the strings afterwards are those of
/// before, each as many times, in the order of `String`, which compares
/// the UTF-8 bytes lexicographically.
#[verifier::external_body]
fn sort_texts(tags: &mut Vec<String>)
    ensures
        texts(final(tags)@).to_multiset() == texts(old(tags)@).to_multiset(),
        final(tags)@.len() == old(tags)@.len(),
        sorted(final(tags)@),
{
    tags.sort();
}

/// Whether `tags` holds the text `value`.
fn holds(tags: &Vec<String>, value: &str) -> (found: bool)
    ensures
        found == texts(tags@).contains(value@),
{
    let mut i: usize = 0;
    while i < tags.len()
        invariant
            i <= tags@.len(),
            forall|k: int| 0 <= k < i ==> tags@[k]@ != value@,
        decreases tags@.len() - i,
    {
        if same_text(tags[i].as_str(), value) {
            assert(texts(tags@)[i as int] == value@);
            return true;
        }
        i += 1;
    }
    false
}

/// Adds the tag `value`, unless present, keeping the tags sorted.
pub fn add_tag(tags: &mut Vec<String>, value: String)
    ensures
        texts(old(tags)@).contains(value@) ==> final(tags)@ == old(tags)@,
        !texts(old(tags)@).contains(value@) ==> texts(final(tags)@).to_multiset() == texts(
            old(tags)@,
        ).to_multiset().insert(value@) && sorted(final(tags)@),
{
    if !holds(tags, value.as_str()) {
        let ghost before = tags@;
        tags.push(value);
        assert(texts(tags@) =~= texts(before).push(value@));
        proof {
            vstd::seq_lib::to_multiset_build(texts(before), value@);
        }
        sort_texts(tags);
    }
}

/// Removes the last tag, if any.
pub fn remove_last_tag(tags: &mut Vec<String>)
    ensures
        old(tags)@.len() > 0 ==> final(tags)@ == old(tags)@.drop_last(),
        old(tags)@.len() == 0 ==> final(tags)@ == old(tags)@,
{
    tags.pop();
}

/// Removes the tag at position `idx`.
pub fn remove_tag(tags: &mut Vec<String>, idx: usize)
    requires
        idx < old(tags)@.len(),
    ensures
        final(tags)@ == old(tags)@.remove(idx as int),
{
    tags.remove(idx);
}

} // verus!

verus! {

/// What `regex::Regex::new` reports of the pattern `pattern`: `None` when
/// it compiles, else the text of the error.
pub uninterp spec fn regex_error(pattern: Seq<char>) -> Option<Seq<char>>;

/// `regex::Regex::new`, with its error written by `Display`. Claimed: the
/// result is the named result of the pattern.
#[verifier::external_body]
fn pattern_error(pattern: &str) -> (error: Option<String>)
    ensures
        match error {
            Some(e) => regex_error(pattern@) == Some(e@),
            None => regex_error(pattern@) is None,
        },
{
    match regex::Regex::new(pattern) {
        Ok(_) => None,
        Err(err) => Some(err.to_string()),
    }
}

/// The state of the regular-expression field given what compiling it
/// reported: valid with no message, or invalid with the error as message.
pub fn validity(error: Option<String>) -> (state: (bool, String))
    ensures
        match error {
            Some(e) => !state.0 && state.1@ == e@,
            None => state.0 && state.1@ == Seq::<char>::empty(),
        },
{
    match error {
        Some(e) => (false, e),
        None => (true, String::new()),
    }
}

/// The state of the regular-expression field holding `pattern`: whether it
/// is valid, and the message to report on it.
pub fn regex_validity(pattern: &str) -> (state: (bool, String))
    ensures
        match regex_error(pattern@) {
            Some(e) => !state.0 && state.1@ == e,
            None => state.0 && state.1@ == Seq::<char>::empty(),
        },
{
    validity(pattern_error(pattern))
}

} // verus!

verus! {

/// Switching the password field twice gives it back.
pub proof fn lemma_switch_twice(input_type: InputType)
    ensures
        switched(switched(input_type)) == input_type,
{
}

/// Flipping an item twice gives it back.
pub proof fn lemma_flip_twice(scene: Scene)
    ensures
        flipped(flipped(scene)) == scene,
{
}

/// The button shows an open eye exactly while the password is hidden.
pub proof fn lemma_icon_tells_type(input_type: InputType)
    ensures
        (icon_of(input_type) == "eye") <==> (input_type == InputType::Password),
{
    reveal_strlit("eye");
    reveal_strlit("eye-slash");
    if input_type == InputType::Text {
        assert(icon_of(input_type)@.len() != "eye"@.len());
    }
}

/// Switching an identifier on makes the list hold it; switching it on again
/// changes nothing.
pub proof fn lemma_switch_on(ids: Seq<u128>, id: u128)
    ensures
        switched_ids(ids, id, true).contains(id),
        switched_ids(switched_ids(ids, id, true), id, true) == switched_ids(ids, id, true),
{
    if !ids.contains(id) {
        assert(ids.push(id)[ids.len() as int] == id);
    }
}

/// Switching an identifier off removes it and keeps the others in order.
pub proof fn lemma_switch_off(ids: Seq<u128>, id: u128)
    ensures
        !switched_ids(ids, id, false).contains(id),
        forall|x: u128| x != id ==> (switched_ids(ids, id, false).contains(x) <==> ids.contains(x)),
{
    let f = other_than(id);
    let kept = ids.filter(f);
    assert forall|x: u128| x != id implies (kept.contains(x) <==> ids.contains(x)) by {
        if ids.contains(x) {
            let k = choose|k: int| 0 <= k < ids.len() && ids[k] == x;
            ids.lemma_filter_contains(f, k);
        }
        if kept.contains(x) {
            ids.lemma_filter_contains_rev(f, x);
        }
    }
    if kept.contains(id) {
        let k = choose|k: int| 0 <= k < kept.len() && kept[k] == id;
        ids.lemma_filter_pred(f, k);
    }
}

/// Switching an identifier on and then off leaves it out, whether it was
/// there at first or not.
pub proof fn lemma_switch_on_then_off(ids: Seq<u128>, id: u128)
    ensures
        !switched_ids(switched_ids(ids, id, true), id, false).contains(id),
{
    lemma_switch_off(switched_ids(ids, id, true), id);
}

} // verus!
