use transfer_rs::routing::{params_of, route_of};
use transfer_rs::text::{join_strings, split_at_any};

#[test]
fn routes() {
    assert_eq!(route_of("/download?x=1"), vec!["download".to_string()]);
    assert_eq!(route_of("/"), vec!["".to_string()]);
    assert_eq!(route_of("/a/b"), vec!["a".to_string(), "b".to_string()]);
    assert_eq!(route_of(""), Vec::<String>::new());
    assert_eq!(route_of("/a/"), vec!["a".to_string(), "".to_string()]);
}

#[test]
fn params_last_value_wins() {
    let p = params_of("/x?a=1&b=2&a=3");
    assert_eq!(p.len(), 2);
    assert_eq!(p.get("a"), Some(&"3".to_string()));
    assert_eq!(p.get("b"), Some(&"2".to_string()));
    assert_eq!(p.get("c"), None);
}

#[test]
fn params_pair_pieces_in_order() {
    let p = params_of("/x?a&b=2");
    assert_eq!(p.len(), 1);
    assert_eq!(p.get("a"), Some(&"b".to_string()));
    let q = params_of("/x?k=v=w");
    assert_eq!(q.get("k"), Some(&"v".to_string()));
    assert_eq!(q.len(), 1);
}

#[test]
fn params_only_between_first_two_question_marks() {
    let p = params_of("/x?a=1?b=2");
    assert_eq!(p.get("a"), Some(&"1".to_string()));
    assert_eq!(p.get("b"), None);
    assert_eq!(params_of("/x").len(), 0);
    assert_eq!(params_of("/x?").len(), 0);
}

#[test]
fn split_and_join() {
    let parts = split_at_any("a&b=c", &vec!['&', '=']);
    assert_eq!(parts, vec!["a".to_string(), "b".to_string(), "c".to_string()]);
    assert_eq!(split_at_any("", &vec!['/']), vec!["".to_string()]);
    assert_eq!(split_at_any("é/ü", &vec!['/']), vec!["é".to_string(), "ü".to_string()]);
    assert_eq!(join_strings(&vec!["a".to_string(), "b".to_string()], "/"), "a/b");
    assert_eq!(join_strings(&vec![], "/"), "");
}
