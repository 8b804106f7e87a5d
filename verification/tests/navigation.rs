use fdt::navigation::{next_id, position_of, previous_id};

fn ids(v: &[&str]) -> Vec<String> {
    v.iter().map(|s| s.to_string()).collect()
}

#[test]
fn first_position_is_found() {
    let list = ids(&["a", "b", "a"]);
    assert_eq!(position_of(&list, &"a".to_string()), Some(0));
    assert_eq!(position_of(&list, &"b".to_string()), Some(1));
    assert_eq!(position_of(&list, &"c".to_string()), None);
}

#[test]
fn next_moves_down_and_stops_at_the_end() {
    let list = ids(&["a", "b", "c"]);
    assert_eq!(next_id(&list, Some(&"a".to_string())), Some("b".to_string()));
    assert_eq!(next_id(&list, Some(&"c".to_string())), Some("c".to_string()));
    assert_eq!(next_id(&list, None), Some("a".to_string()));
    assert_eq!(next_id(&list, Some(&"z".to_string())), Some("a".to_string()));
    assert_eq!(next_id(&ids(&[]), None), None);
}

#[test]
fn previous_moves_up_and_stops_at_the_start() {
    let list = ids(&["a", "b", "c"]);
    assert_eq!(previous_id(&list, Some(&"c".to_string())), Some("b".to_string()));
    assert_eq!(previous_id(&list, Some(&"a".to_string())), Some("a".to_string()));
    assert_eq!(previous_id(&list, None), Some("a".to_string()));
}

#[test]
fn next_then_previous_comes_back() {
    let list = ids(&["root", "child", "leaf"]);
    let selected = "child".to_string();
    let down = next_id(&list, Some(&selected)).unwrap();
    assert_eq!(previous_id(&list, Some(&down)), Some(selected));
}
