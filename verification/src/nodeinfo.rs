//! NodeInfo documents (schema versions 2.0 and 2.1) describing this server.
use std::collections::HashMap;
use vstd::prelude::*;
use crate::text::opt_view;

verus! {

/// Federation protocols a node can announce.
#[derive(Clone, Copy, Debug, PartialEq, Eq, Structural)]
pub enum Protocols2_0 {
    ActivityPub,
    BuddyCloud,
    Dfrn,
    Diaospora,
    Libertree,
    OStatus,
    PumpIo,
    Tent,
    Xmpp,
    Zot,
}

pub open spec fn spec_protocol_name(p: Protocols2_0) -> Seq<char> {
    match p {
        Protocols2_0::ActivityPub => "activitypub"@,
        Protocols2_0::BuddyCloud => "buddycloud"@,
        Protocols2_0::Dfrn => "dfrn"@,
        Protocols2_0::Diaospora => "diaspora"@,
        Protocols2_0::Libertree => "libertree"@,
        Protocols2_0::OStatus => "ostatus"@,
        Protocols2_0::PumpIo => "pumpio"@,
        Protocols2_0::Tent => "tent"@,
        Protocols2_0::Xmpp => "xmpp"@,
        Protocols2_0::Zot => "zot"@,
    }
}

impl Protocols2_0 {
    /// The name under which the protocol appears in a NodeInfo document.
    pub fn wire_name(&self) -> (r: &'static str)
        ensures
            r@ == spec_protocol_name(*self),
    {
        match self {
            Protocols2_0::ActivityPub => "activitypub",
            Protocols2_0::BuddyCloud => "buddycloud",
            Protocols2_0::Dfrn => "dfrn",
            Protocols2_0::Diaospora => "diaspora",
            Protocols2_0::Libertree => "libertree",
            Protocols2_0::OStatus => "ostatus",
            Protocols2_0::PumpIo => "pumpio",
            Protocols2_0::Tent => "tent",
            Protocols2_0::Xmpp => "xmpp",
            Protocols2_0::Zot => "zot",
        }
    }
}

/// Third-party sites a node can import from.
#[derive(Clone, Copy, Debug, PartialEq, Eq, Structural)]
pub enum NodeInfoServicesInbound2_0 {
    Atom1_0,
    GnuSocial,
    Imap,
    Pnut,
    Pop3,
    PumpIo,
    Rss2_0,
    Twitter,
}

pub open spec fn spec_inbound_name(s: NodeInfoServicesInbound2_0) -> Seq<char> {
    match s {
        NodeInfoServicesInbound2_0::Atom1_0 => "atom1.0"@,
        NodeInfoServicesInbound2_0::GnuSocial => "gnusocial"@,
        NodeInfoServicesInbound2_0::Imap => "imap"@,
        NodeInfoServicesInbound2_0::Pnut => "pnut"@,
        NodeInfoServicesInbound2_0::Pop3 => "pop3"@,
        NodeInfoServicesInbound2_0::PumpIo => "pumpio"@,
        NodeInfoServicesInbound2_0::Rss2_0 => "rss2.0"@,
        NodeInfoServicesInbound2_0::Twitter => "twitter"@,
    }
}

impl NodeInfoServicesInbound2_0 {
    /// The name under which the service appears in a NodeInfo document.
    pub fn wire_name(&self) -> (r: &'static str)
        ensures
            r@ == spec_inbound_name(*self),
    {
        match self {
            NodeInfoServicesInbound2_0::Atom1_0 => "atom1.0",
            NodeInfoServicesInbound2_0::GnuSocial => "gnusocial",
            NodeInfoServicesInbound2_0::Imap => "imap",
            NodeInfoServicesInbound2_0::Pnut => "pnut",
            NodeInfoServicesInbound2_0::Pop3 => "pop3",
            NodeInfoServicesInbound2_0::PumpIo => "pumpio",
            NodeInfoServicesInbound2_0::Rss2_0 => "rss2.0",
            NodeInfoServicesInbound2_0::Twitter => "twitter",
        }
    }
}

/// Third-party sites a node can publish to.
#[derive(Clone, Copy, Debug, PartialEq, Eq, Structural)]
pub enum NodeInfoServicesOutbound2_0 {
    Atom1_0,
    Blogger,
    Buddycloud,
    Diaspora,
    Dreamwidth,
    Drupal,
    Facebook,
    Friendica,
    GnuSocial,
    Google,
    InsaneJournal,
    Libertree,
    LinkedIn,
    LiveJournal,
    Mediagoblin,
    MySpace,
    Pinterest,
    Pnut,
    Posterous,
    PumpIo,
    RedMatrix,
    Rss2_0,
    Smtp,
    Tent,
    Tumblr,
    Twitter,
    Wordpress,
    Xmpp,
}

pub open spec fn spec_outbound_name(s: NodeInfoServicesOutbound2_0) -> Seq<char> {
    match s {
        NodeInfoServicesOutbound2_0::Atom1_0 => "atom1.0"@,
        NodeInfoServicesOutbound2_0::Blogger => "blogger"@,
        NodeInfoServicesOutbound2_0::Buddycloud => "buddycloud"@,
        NodeInfoServicesOutbound2_0::Diaspora => "diaspora"@,
        NodeInfoServicesOutbound2_0::Dreamwidth => "dreamwidth"@,
        NodeInfoServicesOutbound2_0::Drupal => "drupal"@,
        NodeInfoServicesOutbound2_0::Facebook => "facebook"@,
        NodeInfoServicesOutbound2_0::Friendica => "frendica"@,
        NodeInfoServicesOutbound2_0::GnuSocial => "gnusocial"@,
        NodeInfoServicesOutbound2_0::Google => "google"@,
        NodeInfoServicesOutbound2_0::InsaneJournal => "insanejournal"@,
        NodeInfoServicesOutbound2_0::Libertree => "libertreaa"@,
        NodeInfoServicesOutbound2_0::LinkedIn => "linkedin"@,
        NodeInfoServicesOutbound2_0::LiveJournal => "livejournal"@,
        NodeInfoServicesOutbound2_0::Mediagoblin => "mediagoblin"@,
        NodeInfoServicesOutbound2_0::MySpace => "myspace"@,
        NodeInfoServicesOutbound2_0::Pinterest => "pinterest"@,
        NodeInfoServicesOutbound2_0::Pnut => "pnut"@,
        NodeInfoServicesOutbound2_0::Posterous => "posterus"@,
        NodeInfoServicesOutbound2_0::PumpIo => "pumpio"@,
        NodeInfoServicesOutbound2_0::RedMatrix => "redmatrix"@,
        NodeInfoServicesOutbound2_0::Rss2_0 => "rss2.0"@,
        NodeInfoServicesOutbound2_0::Smtp => "smtp"@,
        NodeInfoServicesOutbound2_0::Tent => "tent"@,
        NodeInfoServicesOutbound2_0::Tumblr => "tumblr"@,
        NodeInfoServicesOutbound2_0::Twitter => "twitter"@,
        NodeInfoServicesOutbound2_0::Wordpress => "wordpress"@,
        NodeInfoServicesOutbound2_0::Xmpp => "xmpp"@,
    }
}

impl NodeInfoServicesOutbound2_0 {
    /// The name under which the service appears in a NodeInfo document.
    pub fn wire_name(&self) -> (r: &'static str)
        ensures
            r@ == spec_outbound_name(*self),
    {
        match self {
            NodeInfoServicesOutbound2_0::Atom1_0 => "atom1.0",
            NodeInfoServicesOutbound2_0::Blogger => "blogger",
            NodeInfoServicesOutbound2_0::Buddycloud => "buddycloud",
            NodeInfoServicesOutbound2_0::Diaspora => "diaspora",
            NodeInfoServicesOutbound2_0::Dreamwidth => "dreamwidth",
            NodeInfoServicesOutbound2_0::Drupal => "drupal",
            NodeInfoServicesOutbound2_0::Facebook => "facebook",
            NodeInfoServicesOutbound2_0::Friendica => "frendica",
            NodeInfoServicesOutbound2_0::GnuSocial => "gnusocial",
            NodeInfoServicesOutbound2_0::Google => "google",
            NodeInfoServicesOutbound2_0::InsaneJournal => "insanejournal",
            NodeInfoServicesOutbound2_0::Libertree => "libertreaa",
            NodeInfoServicesOutbound2_0::LinkedIn => "linkedin",
            NodeInfoServicesOutbound2_0::LiveJournal => "livejournal",
            NodeInfoServicesOutbound2_0::Mediagoblin => "mediagoblin",
            NodeInfoServicesOutbound2_0::MySpace => "myspace",
            NodeInfoServicesOutbound2_0::Pinterest => "pinterest",
            NodeInfoServicesOutbound2_0::Pnut => "pnut",
            NodeInfoServicesOutbound2_0::Posterous => "posterus",
            NodeInfoServicesOutbound2_0::PumpIo => "pumpio",
            NodeInfoServicesOutbound2_0::RedMatrix => "redmatrix",
            NodeInfoServicesOutbound2_0::Rss2_0 => "rss2.0",
            NodeInfoServicesOutbound2_0::Smtp => "smtp",
            NodeInfoServicesOutbound2_0::Tent => "tent",
            NodeInfoServicesOutbound2_0::Tumblr => "tumblr",
            NodeInfoServicesOutbound2_0::Twitter => "twitter",
            NodeInfoServicesOutbound2_0::Wordpress => "wordpress",
            NodeInfoServicesOutbound2_0::Xmpp => "xmpp",
        }
    }
}

#[derive(Clone, Debug)]
pub struct Services2_0 {
    pub inbound: Vec<NodeInfoServicesInbound2_0>,
    pub outbound: Vec<NodeInfoServicesOutbound2_0>,
}

#[derive(Clone, Copy, Debug, PartialEq, Eq, Structural)]
pub struct Users2_0 {
    pub total: Option<u64>,
    pub active_half_year: Option<u64>,
    pub active_month: Option<u64>,
}

#[derive(Clone, Copy, Debug, PartialEq, Eq, Structural)]
pub struct Usage2_0 {
    pub users: Users2_0,
    pub local_posts: Option<u64>,
    pub local_comments: Option<u64>,
}

#[derive(Clone, Debug)]
pub struct Software2_1 {
    pub name: String,
    pub version: String,
    pub repository: Option<String>,
    pub homepage: Option<String>,
}

#[derive(Clone, Debug)]
pub struct Software2_0 {
    pub name: String,
    pub version: String,
}

#[derive(Clone, Debug)]
pub struct NodeInfo2_1 {
    pub version: String,
    pub software: Software2_1,
    pub protocols: Vec<Protocols2_0>,
    pub services: Services2_0,
    pub open_registrations: bool,
    pub usage: Usage2_0,
    pub metadata: HashMap<String, ()>,
}

#[derive(Clone, Debug)]
pub struct NodeInfo2_0 {
    pub version: String,
    pub software: Software2_0,
    pub protocols: Vec<Protocols2_0>,
    pub services: Services2_0,
    pub open_registrations: bool,
    pub usage: Usage2_0,
    pub metadata: HashMap<String, ()>,
}

/// A NodeInfo document together with the schema profile it is served under.
pub struct NodeInfo<T> {
    pub inner: T,
    pub profile: &'static str,
}

/// Usage statistics with every count left unreported.
pub open spec fn unreported_usage() -> Usage2_0 {
    Usage2_0 {
        users: Users2_0 { total: None, active_half_year: None, active_month: None },
        local_posts: None,
        local_comments: None,
    }
}

/// `None` for an empty string, the string itself otherwise.
pub open spec fn non_empty(s: Seq<char>) -> Option<Seq<char>> {
    if s.len() == 0 { None } else { Some(s) }
}

/// The services part that every document of this server carries: none either way.
pub open spec fn no_services(s: Services2_0) -> bool {
    s.inbound@.len() == 0 && s.outbound@.len() == 0
}

fn unreported_usage_exec() -> (r: Usage2_0)
    ensures
        r == unreported_usage(),
{
    Usage2_0 {
        users: Users2_0 { total: None, active_half_year: None, active_month: None },
        local_posts: None,
        local_comments: None,
    }
}

fn non_empty_exec(s: &str) -> (r: Option<String>)
    ensures
        opt_view(r) == non_empty(s@),
{
    if s.unicode_len() == 0 {
        None
    } else {
        Some(s.to_owned())
    }
}

/// The NodeInfo 2.1 document of this server, for the given package version,
/// repository URL and homepage URL (an empty URL is left out).
pub fn node_info_2_1(version: &str, repository: &str, homepage: &str) -> (r: NodeInfo<NodeInfo2_1>)
    ensures
        r.inner.version@ == "2.1"@,
        r.inner.software.name@ == "Tafarn"@,
        r.inner.software.version@ == version@,
        opt_view(r.inner.software.repository) == non_empty(repository@),
        opt_view(r.inner.software.homepage) == non_empty(homepage@),
        r.inner.protocols@ == seq![Protocols2_0::ActivityPub],
        no_services(r.inner.services),
        r.inner.open_registrations,
        r.inner.usage == unreported_usage(),
        r.inner.metadata@ == Map::<String, ()>::empty(),
        r.profile@ == "http://nodeinfo.diaspora.software/ns/schema/2.1#"@,
{
    let repository = non_empty_exec(repository);
    let homepage = non_empty_exec(homepage);
    let mut protocols: Vec<Protocols2_0> = Vec::new();
    protocols.push(Protocols2_0::ActivityPub);
    NodeInfo {
        inner: NodeInfo2_1 {
            version: "2.1".to_owned(),
            software: Software2_1 {
                name: "Tafarn".to_owned(),
                version: version.to_owned(),
                repository,
                homepage,
            },
            protocols,
            services: Services2_0 { inbound: Vec::new(), outbound: Vec::new() },
            open_registrations: true,
            usage: unreported_usage_exec(),
            metadata: HashMap::new(),
        },
        profile: "http://nodeinfo.diaspora.software/ns/schema/2.1#",
    }
}

/// The NodeInfo 2.0 document of this server, for the given package version.
/// Its `version` field reads "2.1", as this server has always sent it.
pub fn node_info_2_0(version: &str) -> (r: NodeInfo<NodeInfo2_0>)
    ensures
        r.inner.version@ == "2.1"@,
        r.inner.software.name@ == "Tafarn"@,
        r.inner.software.version@ == version@,
        r.inner.protocols@ == seq![Protocols2_0::ActivityPub],
        no_services(r.inner.services),
        r.inner.open_registrations,
        r.inner.usage == unreported_usage(),
        r.inner.metadata@ == Map::<String, ()>::empty(),
        r.profile@ == "http://nodeinfo.diaspora.software/ns/schema/2.0#"@,
{
    let mut protocols: Vec<Protocols2_0> = Vec::new();
    protocols.push(Protocols2_0::ActivityPub);
    NodeInfo {
        inner: NodeInfo2_0 {
            version: "2.1".to_owned(),
            software: Software2_0 { name: "Tafarn".to_owned(), version: version.to_owned() },
            protocols,
            services: Services2_0 { inbound: Vec::new(), outbound: Vec::new() },
            open_registrations: true,
            usage: unreported_usage_exec(),
            metadata: HashMap::new(),
        },
        profile: "http://nodeinfo.diaspora.software/ns/schema/2.0#",
    }
}

} // verus!
