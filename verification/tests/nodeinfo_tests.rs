use tafarn::nodeinfo::{node_info_2_0, node_info_2_1, Protocols2_0, NodeInfoServicesOutbound2_0, NodeInfoServicesInbound2_0};

#[test]
fn node_info_2_1_fills_software() {
    let n = node_info_2_1("0.1.0", "https://example.com/repo", "");
    assert_eq!(n.inner.version, "2.1");
    assert_eq!(n.inner.software.name, "Tafarn");
    assert_eq!(n.inner.software.version, "0.1.0");
    assert_eq!(n.inner.software.repository, Some("https://example.com/repo".to_string()));
    assert_eq!(n.inner.software.homepage, None);
    assert_eq!(n.inner.protocols, vec![Protocols2_0::ActivityPub]);
    assert!(n.inner.services.inbound.is_empty());
    assert!(n.inner.services.outbound.is_empty());
    assert!(n.inner.open_registrations);
    assert_eq!(n.inner.usage.users.total, None);
    assert_eq!(n.inner.usage.local_posts, None);
    assert!(n.inner.metadata.is_empty());
    assert_eq!(n.profile, "http://nodeinfo.diaspora.software/ns/schema/2.1#");
}

#[test]
fn node_info_2_0_keeps_version_field() {
    let n = node_info_2_0("1.2.3");
    assert_eq!(n.inner.version, "2.1");
    assert_eq!(n.inner.software.version, "1.2.3");
    assert_eq!(n.profile, "http://nodeinfo.diaspora.software/ns/schema/2.0#");
}

#[test]
fn wire_names() {
    assert_eq!(Protocols2_0::ActivityPub.wire_name(), "activitypub");
    assert_eq!(Protocols2_0::Diaospora.wire_name(), "diaspora");
    assert_eq!(NodeInfoServicesInbound2_0::Rss2_0.wire_name(), "rss2.0");
    assert_eq!(NodeInfoServicesOutbound2_0::Friendica.wire_name(), "frendica");
    assert_eq!(NodeInfoServicesOutbound2_0::Libertree.wire_name(), "libertreaa");
}
