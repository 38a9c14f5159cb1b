use tafarn::meta::{account_jrd, system_jrd, webfinger_target, well_known_node_info, WebFingerTarget};

#[test]
fn nodeinfo_discovery() {
    let j = well_known_node_info("example.com");
    assert_eq!(j.subject, "example.com");
    assert_eq!(j.links.len(), 2);
    assert_eq!(j.links[0].rel, "http://nodeinfo.diaspora.software/ns/schema/2.1");
    assert_eq!(j.links[0].href.as_deref(), Some("https://example.com/nodeinfo/2.1"));
    assert_eq!(j.links[1].href.as_deref(), Some("https://example.com/nodeinfo/2.0"));
    assert_eq!(j.links[1].type_.as_deref(), Some("application/json"));
}

#[test]
fn webfinger_resources() {
    assert!(matches!(webfinger_target("acct:alice@example.com", "example.com"), WebFingerTarget::Account(ref u) if u == "alice"));
    assert!(matches!(webfinger_target("acct:example.com@example.com", "example.com"), WebFingerTarget::System));
    assert!(matches!(webfinger_target("acct:alice@other.org", "example.com"), WebFingerTarget::NotFound));
    assert!(matches!(webfinger_target("mailto:alice@example.com", "example.com"), WebFingerTarget::NotFound));
    assert!(matches!(webfinger_target("alice@example.com", "example.com"), WebFingerTarget::NotFound));
    assert!(matches!(webfinger_target("acct:alice", "example.com"), WebFingerTarget::NotFound));
}

#[test]
fn webfinger_documents() {
    let s = system_jrd("example.com");
    assert_eq!(s.subject, "acct:example.com@example.com");
    assert_eq!(s.links[0].rel, "hhttp://webfinger.net/rel/profile-page");
    assert_eq!(s.links[0].href.as_deref(), Some("example.com"));
    assert_eq!(s.links[1].href.as_deref(), Some("https://example.com/as/system"));
    let a = account_jrd("example.com", "alice", 0x67e5504410b1426f9247bb680e5fe0c8);
    assert_eq!(a.subject, "acct:alice@example.com");
    assert_eq!(a.links[0].href.as_deref(), Some("https://example.com/users/67e55044-10b1-426f-9247-bb680e5fe0c8"));
    assert_eq!(a.links[1].href.as_deref(), Some("https://example.com/as/users/67e55044-10b1-426f-9247-bb680e5fe0c8"));
    assert_eq!(a.links[1].type_.as_deref(), Some("application/activity+json"));
}
