use blockwork::library::selected_after_reload;

fn ids(v: &[&str]) -> Vec<String> {
    v.iter().map(|s| s.to_string()).collect()
}

#[test]
fn the_open_macro_stays_selected_where_it_now_stands() {
    assert_eq!(selected_after_reload(&ids(&["a", "b", "c"]), Some("b")), Some(1));
    assert_eq!(selected_after_reload(&ids(&["c", "a", "b"]), Some("b")), Some(2));
}

#[test]
fn a_removed_or_absent_macro_leaves_nothing_selected() {
    assert_eq!(selected_after_reload(&ids(&["a", "c"]), Some("b")), None);
    assert_eq!(selected_after_reload(&ids(&["a", "b"]), None), None);
    assert_eq!(selected_after_reload(&ids(&[]), Some("a")), None);
}

#[test]
fn the_first_of_two_equal_ids_is_selected() {
    assert_eq!(selected_after_reload(&ids(&["x", "b", "b"]), Some("b")), Some(1));
}
