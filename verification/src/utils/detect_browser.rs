//! Browser and platform detection from navigator strings.

use vstd::prelude::*;

use crate::utils::text::{contains, contains_text, occurs_at, same_text, starts_with};

verus! {

/// What std's `str::to_lowercase` returns for a string.
pub uninterp spec fn lowercase_of(s: Seq<char>) -> Seq<char>;

/// Lowercases a string.
///
/// Trusted: calls `str::to_lowercase`; the contract only names its result,
/// which depends on the string alone (Unicode's lowercase mapping).
#[verifier::external_body]
fn to_lowercase(s: &str) -> (r: String)
    ensures
        r@ == lowercase_of(s@),
{
    s.to_lowercase()
}

/// Whether a navigator platform denotes iOS: iPads that claim `MacIntel`
/// with more than one touch point, or a platform naming an iPhone, iPad,
/// iPod or iOS.
pub open spec fn ios_platform(platform: Seq<char>, max_touch_points: int) -> bool {
    (platform == "MacIntel"@ && max_touch_points > 1) || contains_text(platform, "iPhone"@)
        || contains_text(platform, "iPad"@) || contains_text(platform, "iPod"@) || contains_text(
        platform,
        "iOS"@,
    )
}

/// Whether the platform is iOS (iPhone, iPad, or iPod).
pub fn is_ios(platform: &str, max_touch_points: i32) -> (r: bool)
    ensures
        r == ios_platform(platform@, max_touch_points as int),
{
    if same_text(platform, "MacIntel") && max_touch_points > 1 {
        return true;
    }
    contains(platform, "iPhone") || contains(platform, "iPad") || contains(platform, "iPod")
        || contains(platform, "iOS")
}

/// Whether a lowercased user agent is Firefox's.
pub fn firefox_in_lowercase(agent: &str) -> (r: bool)
    ensures
        r == contains_text(agent@, "firefox"@),
{
    contains(agent, "firefox")
}

/// Whether the user agent is Firefox's.
pub fn is_firefox(user_agent: &str) -> (r: bool)
    ensures
        r == contains_text(lowercase_of(user_agent@), "firefox"@),
{
    let lower = to_lowercase(user_agent);
    firefox_in_lowercase(lower.as_str())
}

/// Whether a lowercased user agent is Safari's: it names Safari and neither
/// Chrome nor Chromium.
pub fn safari_in_lowercase(agent: &str) -> (r: bool)
    ensures
        r == (contains_text(agent@, "safari"@) && !contains_text(agent@, "chrome"@)
            && !contains_text(agent@, "chromium"@)),
{
    contains(agent, "safari") && !contains(agent, "chrome") && !contains(agent, "chromium")
}

/// Whether the user agent is Safari's: it names Safari and neither Chrome
/// nor Chromium.
pub fn is_safari(user_agent: &str) -> (r: bool)
    ensures
        r == (contains_text(lowercase_of(user_agent@), "safari"@) && !contains_text(
            lowercase_of(user_agent@),
            "chrome"@,
        ) && !contains_text(lowercase_of(user_agent@), "chromium"@)),
{
    let lower = to_lowercase(user_agent);
    safari_in_lowercase(lower.as_str())
}

/// Whether the user agent is Edge's.
pub fn is_edge(user_agent: &str) -> (r: bool)
    ensures
        r == contains_text(user_agent@, "Edg"@),
{
    contains(user_agent, "Edg")
}

/// Whether a lowercased platform or user agent names Android.
pub fn android_in_lowercase(platform: &str, agent: &str) -> (r: bool)
    ensures
        r == (contains_text(platform@, "android"@) || contains_text(agent@, "android"@)),
{
    contains(platform, "android") || contains(agent, "android")
}

/// Whether the platform or user agent is Android.
pub fn is_android(platform: &str, user_agent: &str) -> (r: bool)
    ensures
        r == (contains_text(lowercase_of(platform@), "android"@) || contains_text(
            lowercase_of(user_agent@),
            "android"@,
        )),
{
    let p = to_lowercase(platform);
    let u = to_lowercase(user_agent);
    android_in_lowercase(p.as_str(), u.as_str())
}

/// Whether a lowercased platform is macOS's on a device without touch
/// points: it starts with `mac`.
pub fn mac_in_lowercase(platform: &str, max_touch_points: i32) -> (r: bool)
    ensures
        r == (occurs_at(platform@, "mac"@, 0) && max_touch_points == 0),
{
    starts_with(platform, "mac") && max_touch_points == 0
}

/// Whether the platform is macOS (not iOS): a platform starting with `mac`
/// on a device without touch points.
pub fn is_mac(platform: &str, max_touch_points: i32) -> (r: bool)
    ensures
        r == (occurs_at(lowercase_of(platform@), "mac"@, 0) && max_touch_points == 0),
{
    let p = to_lowercase(platform);
    mac_in_lowercase(p.as_str(), max_touch_points)
}

} // verus!
