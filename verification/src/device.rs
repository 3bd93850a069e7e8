//! Device classification from a `User-Agent` string.
//!
//! Matching is case-insensitive over ASCII and goes through four ordered
//! rules: crawlers first, then tablets, then phones, then desktop
//! browsers. The first rule that matches decides the category.

use vstd::prelude::*;
use crate::text::{ascii_lower, contains, contains_token, lowered_chars, text_of};

verus! {

/// The category of the client that sent a request.
#[derive(Debug, Clone, Copy, PartialEq, Eq, Structural)]
pub enum DeviceType {
    Desktop,
    Mobile,
    Tablet,
    Bot,
    Unknown,
}

impl DeviceType {
    /// The lower-case name under which the category is reported.
    pub open spec fn name(self) -> Seq<char> {
        match self {
            DeviceType::Desktop => "desktop"@,
            DeviceType::Mobile => "mobile"@,
            DeviceType::Tablet => "tablet"@,
            DeviceType::Bot => "bot"@,
            DeviceType::Unknown => "unknown"@,
        }
    }

    pub fn as_str(&self) -> (s: &'static str)
        ensures
            s@ == self.name(),
    {
        match self {
            DeviceType::Desktop => "desktop",
            DeviceType::Mobile => "mobile",
            DeviceType::Tablet => "tablet",
            DeviceType::Bot => "bot",
            DeviceType::Unknown => "unknown",
        }
    }
}

/// A lower-cased user agent names a crawler.
pub open spec fn is_bot(ua: Seq<char>) -> bool {
    ||| contains(ua, "bot"@)
    ||| contains(ua, "crawler"@)
    ||| contains(ua, "spider"@)
    ||| contains(ua, "googlebot"@)
    ||| contains(ua, "bingbot"@)
    ||| contains(ua, "slurp"@)
    ||| contains(ua, "duckduckbot"@)
    ||| contains(ua, "baiduspider"@)
    ||| contains(ua, "yandexbot"@)
    ||| contains(ua, "facebookexternalhit"@)
    ||| contains(ua, "twitterbot"@)
    ||| contains(ua, "linkedinbot"@)
}

/// A lower-cased user agent names a tablet. Android devices that do not
/// call themselves mobile count as tablets.
pub open spec fn is_tablet(ua: Seq<char>) -> bool {
    ||| contains(ua, "ipad"@)
    ||| contains(ua, "tablet"@)
    ||| (contains(ua, "android"@) && !contains(ua, "mobile"@))
}

/// A lower-cased user agent names a phone.
pub open spec fn is_mobile(ua: Seq<char>) -> bool {
    ||| contains(ua, "mobile"@)
    ||| contains(ua, "iphone"@)
    ||| contains(ua, "ipod"@)
    ||| contains(ua, "android"@)
    ||| contains(ua, "blackberry"@)
    ||| contains(ua, "windows phone"@)
    ||| contains(ua, "opera mini"@)
    ||| contains(ua, "opera mobi"@)
}

/// A lower-cased user agent names a desktop browser.
pub open spec fn is_desktop(ua: Seq<char>) -> bool {
    ||| contains(ua, "mozilla"@)
    ||| contains(ua, "chrome"@)
    ||| contains(ua, "safari"@)
    ||| contains(ua, "firefox"@)
    ||| contains(ua, "edge"@)
    ||| contains(ua, "opera"@)
}

/// The category of a user agent: the first rule that its lower-case
/// form matches, in the order bot, tablet, mobile, desktop. An absent
/// user agent, and one that matches no rule, is unknown.
pub open spec fn classify(user_agent: Option<Seq<char>>) -> DeviceType {
    match user_agent {
        None => DeviceType::Unknown,
        Some(raw) => {
            let ua = ascii_lower(raw);
            if is_bot(ua) {
                DeviceType::Bot
            } else if is_tablet(ua) {
                DeviceType::Tablet
            } else if is_mobile(ua) {
                DeviceType::Mobile
            } else if is_desktop(ua) {
                DeviceType::Desktop
            } else {
                DeviceType::Unknown
            }
        },
    }
}

/// The rules are tried in order, and the first that matches decides:
/// a user agent is a bot where the bot rule matches, a tablet where the
/// tablet rule is the first to match, and so on down to unknown, where
/// none matches.
pub proof fn first_matching_rule_decides(raw: Seq<char>)
    ensures
        ({
            let ua = ascii_lower(raw);
            let device = classify(Some(raw));
            &&& device == DeviceType::Bot <==> is_bot(ua)
            &&& device == DeviceType::Tablet <==> !is_bot(ua) && is_tablet(ua)
            &&& device == DeviceType::Mobile <==> !is_bot(ua) && !is_tablet(ua) && is_mobile(ua)
            &&& device == DeviceType::Desktop <==> !is_bot(ua) && !is_tablet(ua) && !is_mobile(ua)
                && is_desktop(ua)
            &&& device == DeviceType::Unknown <==> !is_bot(ua) && !is_tablet(ua) && !is_mobile(ua)
                && !is_desktop(ua)
        }),
{
}

/// A missing user agent is unknown, and so is an empty one.
pub proof fn absent_and_empty_are_unknown()
    ensures
        classify(None) == DeviceType::Unknown,
        classify(Some(Seq::empty())) == DeviceType::Unknown,
{
    let ua = ascii_lower(Seq::empty());
    assert(ua.len() == 0);
    assert forall|token: Seq<char>| token.len() > 0 implies !contains(ua, token) by {
        assert forall|at: int| !crate::text::occurs_at(ua, token, at) by {}
    }
    reveal_strlit("bot");
    reveal_strlit("crawler");
    reveal_strlit("spider");
    reveal_strlit("googlebot");
    reveal_strlit("bingbot");
    reveal_strlit("slurp");
    reveal_strlit("duckduckbot");
    reveal_strlit("baiduspider");
    reveal_strlit("yandexbot");
    reveal_strlit("facebookexternalhit");
    reveal_strlit("twitterbot");
    reveal_strlit("linkedinbot");
    reveal_strlit("ipad");
    reveal_strlit("tablet");
    reveal_strlit("android");
    reveal_strlit("mobile");
    reveal_strlit("iphone");
    reveal_strlit("ipod");
    reveal_strlit("blackberry");
    reveal_strlit("windows phone");
    reveal_strlit("opera mini");
    reveal_strlit("opera mobi");
    reveal_strlit("mozilla");
    reveal_strlit("chrome");
    reveal_strlit("safari");
    reveal_strlit("firefox");
    reveal_strlit("edge");
    reveal_strlit("opera");
}

fn matches_bot(ua: &[char]) -> (b: bool)
    ensures
        b == is_bot(ua@),
{
    contains_token(ua, "bot") || contains_token(ua, "crawler") || contains_token(ua, "spider")
        || contains_token(ua, "googlebot") || contains_token(ua, "bingbot") || contains_token(
        ua,
        "slurp",
    ) || contains_token(ua, "duckduckbot") || contains_token(ua, "baiduspider")
        || contains_token(ua, "yandexbot") || contains_token(ua, "facebookexternalhit")
        || contains_token(ua, "twitterbot") || contains_token(ua, "linkedinbot")
}

fn matches_tablet(ua: &[char]) -> (b: bool)
    ensures
        b == is_tablet(ua@),
{
    contains_token(ua, "ipad") || contains_token(ua, "tablet") || (contains_token(ua, "android")
        && !contains_token(ua, "mobile"))
}

fn matches_mobile(ua: &[char]) -> (b: bool)
    ensures
        b == is_mobile(ua@),
{
    contains_token(ua, "mobile") || contains_token(ua, "iphone") || contains_token(ua, "ipod")
        || contains_token(ua, "android") || contains_token(ua, "blackberry") || contains_token(
        ua,
        "windows phone",
    ) || contains_token(ua, "opera mini") || contains_token(ua, "opera mobi")
}

fn matches_desktop(ua: &[char]) -> (b: bool)
    ensures
        b == is_desktop(ua@),
{
    contains_token(ua, "mozilla") || contains_token(ua, "chrome") || contains_token(ua, "safari")
        || contains_token(ua, "firefox") || contains_token(ua, "edge") || contains_token(
        ua,
        "opera",
    )
}

/// Classifies the client by its `User-Agent`.
pub fn detect_device_type(user_agent: Option<&str>) -> (device: DeviceType)
    ensures
        device == classify(text_of(user_agent)),
{
    let ua = match user_agent {
        Some(raw) => lowered_chars(raw),
        None => {
            return DeviceType::Unknown;
        },
    };
    let ua = ua.as_slice();
    if matches_bot(ua) {
        return DeviceType::Bot;
    }
    if matches_tablet(ua) {
        return DeviceType::Tablet;
    }
    if matches_mobile(ua) {
        return DeviceType::Mobile;
    }
    if matches_desktop(ua) {
        return DeviceType::Desktop;
    }
    DeviceType::Unknown
}

} // verus!
