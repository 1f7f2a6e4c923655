use oxfeed_front::autocomplete::{on_keydown, Key, KeyOutcome};
use oxfeed_front::form::{
    add_tag, regex_validity, remove_last_tag, remove_tag, toggle_id, validity, InputType, Scene,
};

#[test]
fn password_field_switches() {
    let hidden = InputType::default();
    assert_eq!(hidden, InputType::Password);
    assert_eq!(hidden.icon(), "eye");
    assert_eq!(hidden.to_string(), "password");
    let shown = !hidden;
    assert_eq!(shown, InputType::Text);
    assert_eq!(shown.icon(), "eye-slash");
    assert_eq!(shown.to_string(), "text");
    assert_eq!(!shown, InputType::Password);
}

#[test]
fn item_scene_flips() {
    assert_eq!(Scene::default(), Scene::Hidden);
    assert_eq!(!Scene::Hidden, Scene::Expanded);
    assert_eq!(!!Scene::Hidden, Scene::Hidden);
}

#[test]
fn switching_ids() {
    let mut ids = vec![1, 2];
    toggle_id(&mut ids, 3, true);
    assert_eq!(ids, vec![1, 2, 3]);
    toggle_id(&mut ids, 3, true);
    assert_eq!(ids, vec![1, 2, 3]);
    toggle_id(&mut ids, 2, false);
    assert_eq!(ids, vec![1, 3]);
    let mut ids = vec![4, 5, 4];
    toggle_id(&mut ids, 4, false);
    assert_eq!(ids, vec![5]);
}

#[test]
fn tags_stay_sorted_without_duplicates() {
    let mut tags = vec!["rust".to_string(), "linux".to_string()];
    add_tag(&mut tags, "news".to_string());
    assert_eq!(tags, vec!["linux", "news", "rust"]);
    add_tag(&mut tags, "news".to_string());
    assert_eq!(tags, vec!["linux", "news", "rust"]);
    add_tag(&mut tags, "Zed".to_string());
    assert_eq!(tags, vec!["Zed", "linux", "news", "rust"]);
}

#[test]
fn tags_removal() {
    let mut tags = vec!["a".to_string(), "b".to_string(), "c".to_string()];
    remove_tag(&mut tags, 1);
    assert_eq!(tags, vec!["a", "c"]);
    remove_last_tag(&mut tags);
    assert_eq!(tags, vec!["a"]);
    remove_last_tag(&mut tags);
    remove_last_tag(&mut tags);
    assert!(tags.is_empty());
}

#[test]
fn regex_field_validity() {
    assert_eq!(regex_validity("^news: .*$"), (true, String::new()));
    let (valid, message) = regex_validity("(unclosed");
    assert!(!valid);
    assert!(!message.is_empty());
    assert_eq!(validity(Some("bad".to_string())), (false, "bad".to_string()));
    assert_eq!(validity(None), (true, String::new()));
}

#[test]
fn key_names() {
    assert_eq!(Key::from_name("ArrowDown"), Key::ArrowDown);
    assert_eq!(Key::from_name("ArrowUp"), Key::ArrowUp);
    assert_eq!(Key::from_name("Backspace"), Key::Backspace);
    assert_eq!(Key::from_name("Enter"), Key::Enter);
    assert_eq!(Key::from_name("Escape"), Key::Escape);
    assert_eq!(Key::from_name("a"), Key::Other);
    assert_eq!(Key::from_name("Arrow"), Key::Other);
}

#[test]
fn arrows_move_and_wrap() {
    assert_eq!(on_keydown(Key::ArrowDown, None, 3, false), KeyOutcome::Highlight(0));
    assert_eq!(on_keydown(Key::ArrowDown, Some(1), 3, false), KeyOutcome::Highlight(2));
    assert_eq!(on_keydown(Key::ArrowDown, Some(2), 3, false), KeyOutcome::Highlight(0));
    assert_eq!(on_keydown(Key::ArrowUp, None, 3, false), KeyOutcome::Highlight(2));
    assert_eq!(on_keydown(Key::ArrowUp, Some(0), 3, false), KeyOutcome::Highlight(2));
    assert_eq!(on_keydown(Key::ArrowUp, Some(2), 3, false), KeyOutcome::Highlight(1));
}

#[test]
fn other_keys() {
    assert_eq!(on_keydown(Key::Backspace, None, 0, true), KeyOutcome::DeleteLast);
    assert_eq!(on_keydown(Key::Backspace, None, 0, false), KeyOutcome::Nothing);
    assert_eq!(on_keydown(Key::Enter, Some(1), 2, false), KeyOutcome::ChooseTerm(1));
    assert_eq!(on_keydown(Key::Enter, None, 2, false), KeyOutcome::ChooseTyped);
    assert_eq!(on_keydown(Key::Escape, Some(1), 2, false), KeyOutcome::Close);
    assert_eq!(on_keydown(Key::Other, Some(1), 2, false), KeyOutcome::Nothing);
}
