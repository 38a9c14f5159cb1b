//! Notifications: who may read one, which push subscriptions a
//! notification goes to, and what it carries.
use vstd::prelude::*;
use crate::text::{opt_view, opt_str_view};
use crate::text::str_eq;
use crate::media::media_url;
use crate::statuses::{parse_i64, spec_parse_i64};
use crate::views::ApiFailure;

verus! {

/// The kinds of notification that are pushed.
#[derive(Clone, Copy, Debug, PartialEq, Eq, Structural)]
pub enum NotificationKind {
    Follow,
    Favourite,
    Reblog,
    Mention,
}

pub open spec fn kind_name(k: NotificationKind) -> Seq<char> {
    match k {
        NotificationKind::Follow => "follow"@,
        NotificationKind::Favourite => "favourite"@,
        NotificationKind::Reblog => "reblog"@,
        NotificationKind::Mention => "mention"@,
    }
}

pub open spec fn spec_kind_from_name(s: Seq<char>) -> Option<NotificationKind> {
    if s == "follow"@ {
        Some(NotificationKind::Follow)
    } else if s == "favourite"@ {
        Some(NotificationKind::Favourite)
    } else if s == "reblog"@ {
        Some(NotificationKind::Reblog)
    } else if s == "mention"@ {
        Some(NotificationKind::Mention)
    } else {
        None
    }
}

pub open spec fn kind_title_key(k: NotificationKind) -> Seq<char> {
    match k {
        NotificationKind::Follow => "follow-notification"@,
        NotificationKind::Favourite => "favourite-notification"@,
        NotificationKind::Reblog => "reblog-notification"@,
        NotificationKind::Mention => "mention-notification"@,
    }
}

impl NotificationKind {
    /// The kind a stored notification type names; other types are not
    /// pushed.
    pub fn from_name(s: &str) -> (r: Option<NotificationKind>)
        ensures
            r == spec_kind_from_name(s@),
    {
        if str_eq(s, "follow") {
            Some(NotificationKind::Follow)
        } else if str_eq(s, "favourite") {
            Some(NotificationKind::Favourite)
        } else if str_eq(s, "reblog") {
            Some(NotificationKind::Reblog)
        } else if str_eq(s, "mention") {
            Some(NotificationKind::Mention)
        } else {
            None
        }
    }

    /// The kind's name.
    pub fn wire_name(&self) -> (r: &'static str)
        ensures
            r@ == kind_name(*self),
    {
        match self {
            NotificationKind::Follow => "follow",
            NotificationKind::Favourite => "favourite",
            NotificationKind::Reblog => "reblog",
            NotificationKind::Mention => "mention",
        }
    }

    /// The key of the notification's title in the translations.
    pub fn title_key(&self) -> (r: &'static str)
        ensures
            r@ == kind_title_key(*self),
    {
        match self {
            NotificationKind::Follow => "follow-notification",
            NotificationKind::Favourite => "favourite-notification",
            NotificationKind::Reblog => "reblog-notification",
            NotificationKind::Mention => "mention-notification",
        }
    }
}

/// The alerts a push subscription asked for, of the kinds that are pushed.
#[derive(Clone, Copy, Debug, PartialEq, Eq, Structural)]
pub struct SubscriptionAlerts {
    pub follow: bool,
    pub favourite: bool,
    pub reblog: bool,
    pub mention: bool,
}

pub open spec fn alert_enabled(a: SubscriptionAlerts, k: NotificationKind) -> bool {
    match k {
        NotificationKind::Follow => a.follow,
        NotificationKind::Favourite => a.favourite,
        NotificationKind::Reblog => a.reblog,
        NotificationKind::Mention => a.mention,
    }
}

/// Whether a subscription's policy lets a notification through: `all`
/// always, `follower` when the cause follows the account, `followed` when
/// the account follows the cause, anything else never.
pub open spec fn spec_policy_allows(policy: Seq<char>, cause_follows: bool, follows_cause: bool) -> bool {
    if policy == "all"@ {
        true
    } else if policy == "follower"@ {
        cause_follows
    } else if policy == "followed"@ {
        follows_cause
    } else {
        false
    }
}

/// Whether a notification is pushed to a subscription.
pub fn push_wanted(
    kind: NotificationKind, alerts: SubscriptionAlerts, policy: &str, cause_follows: bool, follows_cause: bool,
) -> (r: bool)
    ensures
        r == (alert_enabled(alerts, kind) && spec_policy_allows(policy@, cause_follows, follows_cause)),
{
    let enabled = match kind {
        NotificationKind::Follow => alerts.follow,
        NotificationKind::Favourite => alerts.favourite,
        NotificationKind::Reblog => alerts.reblog,
        NotificationKind::Mention => alerts.mention,
    };
    if !enabled {
        return false;
    }
    if str_eq(policy, "all") {
        true
    } else if str_eq(policy, "follower") {
        cause_follows
    } else if str_eq(policy, "followed") {
        follows_cause
    } else {
        false
    }
}

/// What a pushed notification carries.
#[derive(Clone, Debug)]
pub struct NotificationData {
    pub title: String,
    pub body: String,
    pub preferred_locale: String,
    pub access_token: String,
    pub notification_id: i32,
    pub notification_type: String,
    pub icon: Option<String>,
}

/// The payload of a pushed notification: the (translated) title, the
/// cause's biography for a follow and the status text otherwise (empty
/// when there is no status), the cause's language (`en` by default), and
/// the cause's avatar as icon.
pub fn notification_data(
    kind: NotificationKind, id: i32, title: String, uri: &str, cause_avatar: Option<&str>,
    cause_bio: &str, status_text: Option<&str>, cause_language: Option<&str>,
) -> (r: NotificationData)
    ensures
        r.title@ == title@,
        r.body@ == (match kind {
            NotificationKind::Follow => cause_bio@,
            _ => match opt_str_view(status_text) {
                Some(t) => t,
                None => Seq::<char>::empty(),
            },
        }),
        r.preferred_locale@ == (match opt_str_view(cause_language) {
            Some(l) => l,
            None => "en"@,
        }),
        r.access_token@.len() == 0,
        r.notification_id == id,
        r.notification_type@ == kind_name(kind),
        opt_view(r.icon) == (match opt_str_view(cause_avatar) {
            Some(f) => Some("https://"@ + uri@ + "/media/"@ + f),
            None => None,
        }),
{
    let body = match kind {
        NotificationKind::Follow => cause_bio.to_owned(),
        _ => match status_text {
            Some(t) => t.to_owned(),
            None => String::new(),
        },
    };
    let preferred_locale = match cause_language {
        Some(l) => l.to_owned(),
        None => "en".to_owned(),
    };
    let icon = match cause_avatar {
        Some(f) => Some(media_url(uri, f)),
        None => None,
    };
    NotificationData {
        title,
        body,
        preferred_locale,
        access_token: String::new(),
        notification_id: id,
        notification_type: kind.wire_name().to_owned(),
        icon,
    }
}

/// The check on a notification asked for by id: the id must be a number
/// (else not found); `owner` is the account the notification with that
/// number belongs to, if there is one (else not found), and it must be the
/// asking account (else no permission). Gives the number.
pub fn notification_access(id: &str, owner: Option<u128>, account: u128) -> (r: Result<i64, ApiFailure>)
    ensures
        r == (match spec_parse_i64(id@) {
            None => Err(ApiFailure::NotificationNotFound),
            Some(n) => match owner {
                None => Err(ApiFailure::NotificationNotFound),
                Some(o) => if o == account { Ok::<i64, ApiFailure>(n) } else { Err(ApiFailure::NoPermission) },
            },
        }),
{
    let n = match parse_i64(id) {
        Some(n) => n,
        None => return Err(ApiFailure::NotificationNotFound),
    };
    match owner {
        None => Err(ApiFailure::NotificationNotFound),
        Some(o) => if o == account { Ok(n) } else { Err(ApiFailure::NoPermission) },
    }
}

/// Reading a kind's name gives that kind back, and a name is read only as
/// the kind that goes by it; the translation key of a kind's title is its
/// name followed by `-notification`.
pub proof fn lemma_kind_names_read_back(k: NotificationKind, s: Seq<char>)
    ensures
        spec_kind_from_name(kind_name(k)) == Some(k),
        spec_kind_from_name(s) matches Some(j) ==> kind_name(j) == s,
        kind_title_key(k) == kind_name(k) + "-notification"@,
{
    reveal_strlit("follow");
    reveal_strlit("favourite");
    reveal_strlit("reblog");
    reveal_strlit("mention");
    reveal_strlit("-notification");
    reveal_strlit("follow-notification");
    reveal_strlit("favourite-notification");
    reveal_strlit("reblog-notification");
    reveal_strlit("mention-notification");
    assert("follow"@.len() == 6);
    assert("favourite"@.len() == 9);
    assert("reblog"@.len() == 6);
    assert("mention"@.len() == 7);
    assert("follow"@[0] != "reblog"@[0]);
    match k {
        NotificationKind::Follow => assert("follow-notification"@ =~= "follow"@ + "-notification"@),
        NotificationKind::Favourite => assert("favourite-notification"@ =~= "favourite"@ + "-notification"@),
        NotificationKind::Reblog => assert("reblog-notification"@ =~= "reblog"@ + "-notification"@),
        NotificationKind::Mention => assert("mention-notification"@ =~= "mention"@ + "-notification"@),
    }
}

} // verus!
