//! Verified core of a federated (ActivityPub / Mastodon API) social server.
pub mod accounts;
pub mod activity_streams;
pub mod actors;
pub mod collection;
pub mod crypto;
pub mod csrf;
pub mod delivery;
pub mod encoding;
pub mod i18n;
pub mod instance;
pub mod ids;
pub mod media;
pub mod meta;
pub mod nodeinfo;
pub mod notes;
pub mod notifications;
pub mod oauth;
pub mod oidc;
pub mod relations;
pub mod relationships;
pub mod search;
pub mod signature;
pub mod signing;
pub mod statuses;
pub mod tasks;
pub mod text;
pub mod tokens;
pub mod timelines;
pub mod uris;
pub mod views;
pub mod web_push;
