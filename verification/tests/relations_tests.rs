use tafarn::relations::{
    collection_count, items_to_look_up, relation_follows, relations_fetched, NonMatchingOption, RelationsError,
};

fn id(s: &str) -> Option<String> {
    Some(s.to_string())
}

#[test]
fn absent_ids_never_match() {
    let none = NonMatchingOption::from(None);
    let a = NonMatchingOption::from(id("https://a.example/u/1"));
    let a2 = NonMatchingOption::from(id("https://a.example/u/1"));
    let b = NonMatchingOption::from(id("https://a.example/u/2"));
    assert!(!none.eq(&NonMatchingOption::from(None)));
    assert!(!none.eq(&a));
    assert!(!a.eq(&none));
    assert!(a.eq(&a2));
    assert!(!a.eq(&b));
}

#[test]
fn each_id_is_looked_up_once() {
    let ids = vec![id("x"), None, id("y"), id("x"), None, id("y"), id("z")];
    assert_eq!(items_to_look_up(&ids), vec![0, 1, 2, 4, 6]);
    assert!(items_to_look_up(&vec![]).is_empty());
}

#[test]
fn counts_come_from_total_items() {
    assert_eq!(collection_count(Some(12), 3), 12);
    assert_eq!(collection_count(None, 3), 3);
    assert_eq!(collection_count(Some(u64::MAX), 3), -1);
    assert_eq!(collection_count(Some(1 << 32), 3), 0);
}

#[test]
fn missing_collections_are_errors() {
    assert_eq!(relations_fetched(true, false, true, false), Some(RelationsError::FollowersUnavailable));
    assert_eq!(relations_fetched(false, false, true, false), Some(RelationsError::FollowingUnavailable));
    assert_eq!(relations_fetched(true, true, true, true), None);
    assert_eq!(relations_fetched(false, false, false, false), None);
}

#[test]
fn follows_are_stored_for_found_accounts() {
    let found = vec![("https://a/1".to_string(), 1u128), ("https://a/2".to_string(), 2), ("https://a/3".to_string(), 3)];
    let followers = Some(vec!["https://a/1".to_string(), "https://a/9".to_string(), "https://a/2".to_string()]);
    let following = Some(vec!["https://a/3".to_string()]);
    assert_eq!(relation_follows(100, &followers, &following, &found), vec![(1, 100), (2, 100), (100, 3)]);
    assert_eq!(relation_follows(100, &None, &following, &found), vec![(100, 3)]);
    assert!(relation_follows(100, &None, &None, &found).is_empty());
}
