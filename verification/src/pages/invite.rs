//! The invite landing page: which platform the visitor uses and where the
//! invite link sends them.
use vstd::prelude::*;
use crate::text::{contains_text, has_substring, to_lowercase, unicode_lowercase};

verus! {

/// Play Store page of the app.
pub const ANDROID_STORE: &'static str = "https://play.google.com/store/apps/details?id=eu.peernetwork.app";

/// App Store page of the app.
pub const IOS_STORE: &'static str = "https://apps.apple.com/app/peer-network/id6744612499";

/// The visitor's platform.
#[derive(Debug, Clone, Copy, PartialEq, Eq, Structural)]
pub enum Platform {
    Android,
    Ios,
    Desktop,
}

/// The platform a lowercased user agent names.
pub open spec fn spec_platform(ua_lower: Seq<char>) -> Platform {
    if has_substring(ua_lower, "android"@) {
        Platform::Android
    } else if has_substring(ua_lower, "iphone"@) || has_substring(ua_lower, "ipad"@)
        || has_substring(ua_lower, "ipod"@) {
        Platform::Ios
    } else {
        Platform::Desktop
    }
}

/// Detect the platform from the browser's user agent, case-insensitively.
pub fn detect_platform(user_agent: &str) -> (r: Platform)
    ensures
        r == spec_platform(unicode_lowercase(user_agent@)),
{
    let ua = to_lowercase(user_agent);
    if contains_text(ua.as_str(), "android") {
        Platform::Android
    } else if contains_text(ua.as_str(), "iphone") || contains_text(ua.as_str(), "ipad")
        || contains_text(ua.as_str(), "ipod") {
        Platform::Ios
    } else {
        Platform::Desktop
    }
}

/// The app's deep link for an invite: `peer://invite/<uuid>`.
pub fn deep_link(uuid: &str) -> (r: String)
    ensures
        r@ == "peer://invite/"@ + uuid@,
{
    let mut r = "peer://invite/".to_owned();
    r.append(uuid);
    r
}

/// The web registration page for an invite.
pub fn register_url(origin: &str, uuid: &str) -> (r: String)
    ensures
        r@ == origin@ + "/register?referralUuid="@ + uuid@,
{
    let mut r = origin.to_owned();
    r.append("/register?referralUuid=");
    r.append(uuid);
    r
}

/// What the invite button copies: the deep link on phones, the bare code
/// on desktops.
pub fn invite_copy_text(platform: Platform, uuid: &str) -> (r: String)
    ensures
        r@ == if platform == Platform::Desktop {
            uuid@
        } else {
            "peer://invite/"@ + uuid@
        },
{
    match platform {
        Platform::Desktop => uuid.to_owned(),
        _ => deep_link(uuid),
    }
}

/// Where the invite button sends the visitor: the app store of their
/// phone, or the registration page on a desktop.
pub fn invite_target(platform: Platform, origin: &str, uuid: &str) -> (r: String)
    ensures
        r@ == match platform {
            Platform::Android => ANDROID_STORE@,
            Platform::Ios => IOS_STORE@,
            Platform::Desktop => origin@ + "/register?referralUuid="@ + uuid@,
        },
{
    match platform {
        Platform::Android => ANDROID_STORE.to_owned(),
        Platform::Ios => IOS_STORE.to_owned(),
        Platform::Desktop => register_url(origin, uuid),
    }
}

/// Where the page falls back to when the app did not open: the
/// registration page on desktops, nowhere on phones.
pub fn fallback_target(platform: Platform, origin: &str, uuid: &str) -> (r: Option<String>)
    ensures
        platform == Platform::Desktop ==> (r matches Some(u) && u@ == origin@
            + "/register?referralUuid="@ + uuid@),
        platform != Platform::Desktop ==> r is None,
{
    match platform {
        Platform::Desktop => Some(register_url(origin, uuid)),
        _ => None,
    }
}

} // verus!
