use tafarn::instance::{instance, instance_v2};

#[test]
fn instance_v1_description() {
    let i = instance("example.com");
    assert_eq!(i.uri, "example.com");
    assert_eq!(i.title, "Tafarn Test");
    assert_eq!(i.email, "test@example.com");
    assert_eq!(i.version, "4.0.2");
    assert_eq!(i.short_description, "");
    assert_eq!(i.languages, vec!["en".to_string()]);
    assert!(i.registrations && !i.approval_required && !i.invites_enabled);
    assert_eq!((i.stats.user_count, i.stats.status_count, i.stats.domain_count), (0, 0, 0));
    assert!(i.urls.streaming_api.is_none() && i.thumbnail.is_none() && i.contact_account.is_none());
}

#[test]
fn instance_v2_description() {
    let i = instance_v2("example.com");
    assert_eq!(i.domain, "example.com");
    assert_eq!(i.title, "Tafarn Test");
    assert_eq!(i.version, "4.0.2");
    assert_eq!(i.configuration.statuses.max_characters, 500);
    assert_eq!(i.configuration.statuses.max_media_attachments, 0);
    assert!(i.configuration.media_attachments.supported_mime_types.is_empty());
    assert!(!i.configuration.translation_enabled);
    assert!(i.registrations.enabled && !i.registrations.approval_required);
    assert_eq!(i.contact_email, "test@example.com");
    assert!(i.rules.is_empty());
    assert_eq!(i.languages, vec!["en".to_string()]);
}
