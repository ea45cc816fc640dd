use sslb::utils::find_element;

#[test]
fn finds_the_first_match() {
    let v = vec![1, 4, 6, 7, 8];
    assert_eq!(find_element(&v, |x: &i32| *x % 2 == 0), Some(4));
    assert_eq!(find_element(&v, |x: &i32| *x > 6), Some(7));
    assert_eq!(find_element(&v, |x: &i32| *x == 1), Some(1));
}

#[test]
fn finds_nothing_without_a_match() {
    let v = vec![1, 3, 5];
    assert_eq!(find_element(&v, |x: &i32| *x % 2 == 0), None);
    let empty: Vec<String> = Vec::new();
    assert_eq!(find_element(&empty, |_: &String| true), None);
}

#[test]
fn returns_a_copy() {
    let v = vec!["a".to_string(), "bb".to_string(), "cc".to_string()];
    let found = find_element(&v, |s: &String| s.len() == 2);
    assert_eq!(found, Some("bb".to_string()));
    assert_eq!(v.len(), 3);
}
