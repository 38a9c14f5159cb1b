use tafarn::collection::fetch_entire_collection;
use tafarn::activity_streams::ObjectKind;
use tafarn::collection::{CollectionPage, CollectionStream, PageOrLink, StreamStep};

fn item(s: StreamStep<u32>) -> Option<u32> {
    match s {
        StreamStep::Item(x) => Some(x),
        _ => None,
    }
}

#[test]
fn inline_items_come_last_first() {
    let mut s: CollectionStream<u32, String> = CollectionStream::new(Some(vec![1, 2, 3]), Some("ignored".to_string()), Some(3));
    assert_eq!(s.size_hint(), (3, Some(3)));
    assert_eq!(item(s.poll_next()), Some(3));
    assert_eq!(item(s.poll_next()), Some(2));
    assert_eq!(item(s.poll_next()), Some(1));
    assert!(matches!(s.poll_next(), StreamStep::End));
}

#[test]
fn pages_are_resolved_and_fetched() {
    let mut s: CollectionStream<u32, String> = CollectionStream::new(None, Some("page1".to_string()), None);
    assert!(matches!(s.poll_next(), StreamStep::Resolve));
    assert_eq!(s.next_page().as_deref(), Some("page1"));
    assert!(matches!(s.poll_next(), StreamStep::Wait));
    let page = CollectionPage { next: Some("page2".to_string()), items: Some(vec![10, 11]) };
    assert_eq!(item(s.on_resolved(Some(PageOrLink::Page(page)))), Some(11));
    assert_eq!(item(s.poll_next()), Some(10));
    assert!(matches!(s.poll_next(), StreamStep::Resolve));
    assert_eq!(s.next_page().as_deref(), Some("page2"));
    match s.on_resolved(Some(PageOrLink::Link(Some("https://remote/page2".to_string())))) {
        StreamStep::Fetch(u) => assert_eq!(u, "https://remote/page2"),
        other => panic!("{:?}", other),
    }
    assert!(matches!(s.poll_next(), StreamStep::Wait));
    let fetched = CollectionPage { next: None, items: Some(vec![20, 21]) };
    assert_eq!(item(s.on_fetched(Some(fetched))), Some(21));
    assert_eq!(item(s.poll_next()), Some(20));
}

#[test]
fn failures_end_the_stream() {
    let mut s: CollectionStream<u32, String> = CollectionStream::new(None, Some("p".to_string()), None);
    assert!(matches!(s.poll_next(), StreamStep::Resolve));
    assert!(matches!(s.on_resolved(None), StreamStep::End));
    let mut s: CollectionStream<u32, String> = CollectionStream::new(None, Some("p".to_string()), None);
    assert!(matches!(s.poll_next(), StreamStep::Resolve));
    assert!(matches!(s.on_resolved(Some(PageOrLink::Link(None))), StreamStep::End));
    let mut s: CollectionStream<u32, String> = CollectionStream::new(None, Some("p".to_string()), None);
    assert!(matches!(s.poll_next(), StreamStep::Resolve));
    let empty = CollectionPage { next: Some("q".to_string()), items: None };
    assert!(matches!(s.on_resolved(Some(PageOrLink::Page(empty))), StreamStep::End));
    let mut s: CollectionStream<u32, String> = CollectionStream::new(None, None, None);
    assert!(matches!(s.poll_next(), StreamStep::End));
}

#[test]
fn only_collections_are_streamed() {
    let mut s = fetch_entire_collection::<u32, String>(ObjectKind::OrderedCollection, Some(vec![1, 2]), None, Some(2)).unwrap();
    assert_eq!(s.size_hint(), (2, Some(2)));
    assert_eq!(item(s.poll_next()), Some(2));
    let s = fetch_entire_collection::<u32, String>(ObjectKind::Collection, None, Some("p1".to_string()), None).unwrap();
    assert_eq!(s.next_page(), &Some("p1".to_string()));
    assert!(fetch_entire_collection::<u32, String>(ObjectKind::Note, Some(vec![1]), None, None).is_none());
}
