//! Push subscriptions of the client API.
use vstd::prelude::*;
use crate::encoding::{base64_url_safe_no_pad_encode, base64_url_safe_no_pad_encoded};
use crate::ids::{uuid_text, uuid_to_string};
use crate::notifications::SubscriptionAlerts;

verus! {

/// The alerts a push subscription asks for.
#[derive(Clone, Copy, Debug, PartialEq, Eq, Structural)]
pub struct WebPushAlerts {
    pub follow: bool,
    pub favourite: bool,
    pub reblog: bool,
    pub mention: bool,
    pub poll: bool,
    pub status: bool,
    pub follow_request: bool,
    pub update: bool,
    pub admin_sign_up: bool,
    pub admin_report: bool,
}

/// The alerts stored for a new subscription: as asked, except that the
/// admin-report alert takes the value asked for admin sign-ups (as the
/// server has always stored it; a later update stores both as asked).
pub fn alerts_on_create(a: WebPushAlerts) -> (r: WebPushAlerts)
    ensures
        r == (WebPushAlerts { admin_report: a.admin_sign_up, ..a }),
{
    WebPushAlerts { admin_report: a.admin_sign_up, ..a }
}

/// The alerts of the kinds of notification that are pushed.
pub fn pushed_alerts(a: WebPushAlerts) -> (r: SubscriptionAlerts)
    ensures
        r == (SubscriptionAlerts { follow: a.follow, favourite: a.favourite, reblog: a.reblog, mention: a.mention }),
{
    SubscriptionAlerts { follow: a.follow, favourite: a.favourite, reblog: a.reblog, mention: a.mention }
}

/// A push subscription as the client API shows it.
pub struct WebPushSubscription {
    pub id: String,
    pub endpoint: String,
    pub alerts: WebPushAlerts,
    pub server_key: String,
}

/// Shows a subscription, with the server's VAPID public key in unpadded
/// URL-safe base64.
pub fn render_subscription(id: u128, endpoint: String, alerts: WebPushAlerts, vapid_public_key: &[u8]) -> (r: WebPushSubscription)
    ensures
        r.id@ == uuid_text(id),
        r.endpoint@ == endpoint@,
        r.alerts == alerts,
        r.server_key@ == base64_url_safe_no_pad_encoded(vapid_public_key@),
{
    WebPushSubscription {
        id: uuid_to_string(id),
        endpoint,
        alerts,
        server_key: base64_url_safe_no_pad_encode(vapid_public_key),
    }
}

} // verus!
