//! What the client API says of this server (`/api/v1/instance` and
//! `/api/v2/instance`).
use vstd::prelude::*;

verus! {

pub struct InstanceURLs {
    pub streaming_api: Option<String>,
}

pub struct InstanceStats {
    pub user_count: u64,
    pub status_count: u64,
    pub domain_count: u64,
}

/// The server as the first version of the API describes it. The contact
/// account is named by id.
pub struct Instance {
    pub uri: String,
    pub title: String,
    pub short_description: String,
    pub description: String,
    pub email: String,
    pub version: String,
    pub urls: InstanceURLs,
    pub stats: InstanceStats,
    pub thumbnail: Option<String>,
    pub contact_account: Option<u128>,
    pub languages: Vec<String>,
    pub registrations: bool,
    pub approval_required: bool,
    pub invites_enabled: bool,
}

/// The name the server goes by.
pub open spec fn instance_title() -> Seq<char> {
    "Tafarn Test"@
}

/// The address given for contact.
pub open spec fn instance_email() -> Seq<char> {
    "test@example.com"@
}

/// The version of the Mastodon API the server follows.
pub open spec fn api_version() -> Seq<char> {
    "4.0.2"@
}

/// Whether a list of strings is just `["en"]`.
pub open spec fn english_only(langs: Seq<String>) -> bool {
    langs.len() == 1 && langs[0]@ == "en"@
}

fn english() -> (r: Vec<String>)
    ensures
        english_only(r@),
{
    proof {
        reveal_strlit("en");
    }
    let mut v: Vec<String> = Vec::new();
    v.push("en".to_owned());
    v
}

/// The server at `uri`: its fixed title, contact address and API version,
/// no descriptions, streaming API, thumbnail or contact account, zero
/// counts, English only, open registrations without approval, no invites.
pub fn instance(uri: &str) -> (r: Instance)
    ensures
        r.uri@ == uri@,
        r.title@ == instance_title(),
        r.short_description@.len() == 0,
        r.description@.len() == 0,
        r.email@ == instance_email(),
        r.version@ == api_version(),
        r.urls.streaming_api is None,
        r.stats.user_count == 0 && r.stats.status_count == 0 && r.stats.domain_count == 0,
        r.thumbnail is None,
        r.contact_account is None,
        english_only(r.languages@),
        r.registrations && !r.approval_required && !r.invites_enabled,
{
    proof {
        reveal_strlit("Tafarn Test");
        reveal_strlit("test@example.com");
        reveal_strlit("4.0.2");
    }
    Instance {
        uri: uri.to_owned(),
        title: "Tafarn Test".to_owned(),
        short_description: String::new(),
        description: String::new(),
        email: "test@example.com".to_owned(),
        version: "4.0.2".to_owned(),
        urls: InstanceURLs { streaming_api: None },
        stats: InstanceStats { user_count: 0, status_count: 0, domain_count: 0 },
        thumbnail: None,
        contact_account: None,
        languages: english(),
        registrations: true,
        approval_required: false,
        invites_enabled: false,
    }
}

pub struct InstanceV2Usage {
    pub active_month: u64,
}

pub struct InstanceV2Thumbnail {
    pub url: String,
    pub blurhash: Option<String>,
    /// The `@1x` and `@2x` versions, where there are any.
    pub versions: Option<(Option<String>, Option<String>)>,
}

pub struct InstanceV2Statuses {
    pub max_characters: u64,
    pub max_media_attachments: u64,
    pub characters_reserved_per_url: u64,
}

pub struct InstanceV2MediaAttachments {
    pub supported_mime_types: Vec<String>,
    pub image_size_limit: u64,
    pub image_matrix_limit: u64,
    pub video_size_limit: u64,
    pub video_frame_rate_limit: u64,
    pub video_matrix_limit: u64,
}

pub struct InstanceV2Polls {
    pub max_options: u64,
    pub max_characters_per_option: u64,
    pub min_expiration: u64,
    pub max_expiration: u64,
}

pub struct InstanceV2Configuration {
    pub streaming_api: String,
    pub max_featured_tags: u64,
    pub statuses: InstanceV2Statuses,
    pub media_attachments: InstanceV2MediaAttachments,
    pub polls: InstanceV2Polls,
    pub translation_enabled: bool,
}

pub struct InstanceV2Registrations {
    pub enabled: bool,
    pub approval_required: bool,
    pub message: Option<String>,
}

/// A rule of the server.
pub struct Rule {
    pub id: String,
    pub text: String,
}

/// The server as the second version of the API describes it. The contact
/// account is named by id.
pub struct InstanceV2 {
    pub domain: String,
    pub title: String,
    pub version: String,
    pub source_url: String,
    pub description: String,
    pub usage: InstanceV2Usage,
    pub thumbnail: InstanceV2Thumbnail,
    pub languages: Vec<String>,
    pub configuration: InstanceV2Configuration,
    pub registrations: InstanceV2Registrations,
    pub contact_email: String,
    pub contact_account: Option<u128>,
    pub rules: Vec<Rule>,
}

/// The server at `uri` in the second version of the API: the same title,
/// version and contact address, no source URL, description, activity,
/// thumbnail, streaming API or rules; statuses of at most 500 characters
/// and no other limit stated (all zero, no media types, no translation);
/// English only; open registrations without approval or message.
pub fn instance_v2(uri: &str) -> (r: InstanceV2)
    ensures
        r.domain@ == uri@,
        r.title@ == instance_title(),
        r.version@ == api_version(),
        r.source_url@.len() == 0,
        r.description@.len() == 0,
        r.usage.active_month == 0,
        r.thumbnail.url@.len() == 0 && r.thumbnail.blurhash is None && r.thumbnail.versions is None,
        english_only(r.languages@),
        r.configuration.streaming_api@.len() == 0,
        r.configuration.max_featured_tags == 0,
        r.configuration.statuses.max_characters == 500,
        r.configuration.statuses.max_media_attachments == 0,
        r.configuration.statuses.characters_reserved_per_url == 0,
        r.configuration.media_attachments.supported_mime_types@.len() == 0,
        r.configuration.media_attachments.image_size_limit == 0,
        r.configuration.media_attachments.image_matrix_limit == 0,
        r.configuration.media_attachments.video_size_limit == 0,
        r.configuration.media_attachments.video_frame_rate_limit == 0,
        r.configuration.media_attachments.video_matrix_limit == 0,
        r.configuration.polls.max_options == 0 && r.configuration.polls.max_characters_per_option == 0,
        r.configuration.polls.min_expiration == 0 && r.configuration.polls.max_expiration == 0,
        !r.configuration.translation_enabled,
        r.registrations.enabled && !r.registrations.approval_required && r.registrations.message is None,
        r.contact_email@ == instance_email(),
        r.contact_account is None,
        r.rules@.len() == 0,
{
    proof {
        reveal_strlit("Tafarn Test");
        reveal_strlit("test@example.com");
        reveal_strlit("4.0.2");
    }
    InstanceV2 {
        domain: uri.to_owned(),
        title: "Tafarn Test".to_owned(),
        version: "4.0.2".to_owned(),
        source_url: String::new(),
        description: String::new(),
        usage: InstanceV2Usage { active_month: 0 },
        thumbnail: InstanceV2Thumbnail { url: String::new(), blurhash: None, versions: None },
        languages: english(),
        configuration: InstanceV2Configuration {
            streaming_api: String::new(),
            max_featured_tags: 0,
            statuses: InstanceV2Statuses { max_characters: 500, max_media_attachments: 0, characters_reserved_per_url: 0 },
            media_attachments: InstanceV2MediaAttachments {
                supported_mime_types: Vec::new(),
                image_size_limit: 0,
                image_matrix_limit: 0,
                video_size_limit: 0,
                video_frame_rate_limit: 0,
                video_matrix_limit: 0,
            },
            polls: InstanceV2Polls { max_options: 0, max_characters_per_option: 0, min_expiration: 0, max_expiration: 0 },
            translation_enabled: false,
        },
        registrations: InstanceV2Registrations { enabled: true, approval_required: false, message: None },
        contact_email: "test@example.com".to_owned(),
        contact_account: None,
        rules: Vec::new(),
    }
}

} // verus!
