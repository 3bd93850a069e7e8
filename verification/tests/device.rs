use api_gateway::device::{detect_device_type, DeviceType};

#[test]
fn test_detect_device_type_mobile() {
    assert_eq!(
        detect_device_type(Some("Mozilla/5.0 (iPhone; CPU iPhone OS 14_0 like Mac OS X)")),
        DeviceType::Mobile
    );
    // An Android device that does not call itself mobile counts as a tablet.
    assert_eq!(
        detect_device_type(Some("Mozilla/5.0 (Linux; Android 10; SM-G973F) AppleWebKit/537.36")),
        DeviceType::Tablet
    );
    assert_eq!(
        detect_device_type(Some(
            "Mozilla/5.0 (Linux; Android 10; SM-G973F) AppleWebKit/537.36 Mobile Safari/537.36"
        )),
        DeviceType::Mobile
    );
}

#[test]
fn test_detect_device_type_tablet() {
    assert_eq!(
        detect_device_type(Some(
            "Mozilla/5.0 (iPad; CPU OS 14_0 like Mac OS X) AppleWebKit/605.1.15"
        )),
        DeviceType::Tablet
    );
    assert_eq!(
        detect_device_type(Some("Mozilla/5.0 (Linux; Android 10; SM-T860) AppleWebKit/537.36")),
        DeviceType::Tablet
    );
}

#[test]
fn test_detect_device_type_desktop() {
    assert_eq!(
        detect_device_type(Some("Mozilla/5.0 (Windows NT 10.0; Win64; x64) Chrome/91.0")),
        DeviceType::Desktop
    );
    assert_eq!(
        detect_device_type(Some(
            "Mozilla/5.0 (Macintosh; Intel Mac OS X 10_15_7) Safari/605.1.15"
        )),
        DeviceType::Desktop
    );
}

#[test]
fn test_detect_device_type_bot() {
    assert_eq!(
        detect_device_type(Some("Googlebot/2.1 (+http://www.google.com/bot.html)")),
        DeviceType::Bot
    );
    assert_eq!(detect_device_type(Some("facebookexternalhit/1.1")), DeviceType::Bot);
    assert_eq!(detect_device_type(Some("Twitterbot/1.0")), DeviceType::Bot);
}

#[test]
fn test_detect_device_type_unknown() {
    assert_eq!(detect_device_type(None), DeviceType::Unknown);
    assert_eq!(detect_device_type(Some("")), DeviceType::Unknown);
    assert_eq!(detect_device_type(Some("custom-client/1.0")), DeviceType::Unknown);
}

#[test]
fn device_fixtures_map_to_their_categories() {
    assert_eq!(
        detect_device_type(Some("Googlebot/2.1 (+http://www.google.com/bot.html)")),
        DeviceType::Bot
    );
    assert_eq!(detect_device_type(Some("Mozilla/5.0 (iPad; CPU OS 14_0)")), DeviceType::Tablet);
    assert_eq!(
        detect_device_type(Some("Mozilla/5.0 (Linux; Android 10; SM-G973F)")),
        DeviceType::Tablet
    );
    assert_eq!(
        detect_device_type(Some("Mozilla/5.0 (Linux; Android 10; SM-G973F) Mobile Safari")),
        DeviceType::Mobile
    );
    assert_eq!(
        detect_device_type(Some("Mozilla/5.0 (Linux; Android 10; SM-T860)")),
        DeviceType::Tablet
    );
    assert_eq!(
        detect_device_type(Some("Mozilla/5.0 (Windows NT 10.0; Win64; x64) Chrome/91.0")),
        DeviceType::Desktop
    );
    assert_eq!(detect_device_type(Some("")), DeviceType::Unknown);
    assert_eq!(detect_device_type(None), DeviceType::Unknown);
}

#[test]
fn classification_ignores_ascii_case() {
    assert_eq!(detect_device_type(Some("GOOGLEBOT")), DeviceType::Bot);
    assert_eq!(detect_device_type(Some("IPAD")), DeviceType::Tablet);
    assert_eq!(detect_device_type(Some("BlackBerry9700")), DeviceType::Mobile);
    assert_eq!(detect_device_type(Some("FIREFOX")), DeviceType::Desktop);
}

#[test]
fn classification_folds_ascii_letters_only() {
    // The Kelvin sign is not the letter K.
    assert_eq!(detect_device_type(Some("BLAC\u{212a}BERRY")), DeviceType::Unknown);
    assert_eq!(detect_device_type(Some("caf\u{e9} iphone")), DeviceType::Mobile);
}

#[test]
fn earlier_rules_win() {
    // A crawler that names a browser and a phone is still a crawler.
    assert_eq!(
        detect_device_type(Some("Mozilla/5.0 (iPhone) compatible; bingbot/2.0")),
        DeviceType::Bot
    );
    // A tablet that calls itself mobile is a tablet.
    assert_eq!(detect_device_type(Some("Android Tablet Mobile")), DeviceType::Tablet);
    // A phone that names a browser is a phone.
    assert_eq!(detect_device_type(Some("Opera Mini/7.0 Mozilla")), DeviceType::Mobile);
}

#[test]
fn every_token_is_recognized() {
    for token in [
        "bot",
        "crawler",
        "spider",
        "googlebot",
        "bingbot",
        "slurp",
        "duckduckbot",
        "baiduspider",
        "yandexbot",
        "facebookexternalhit",
        "twitterbot",
        "linkedinbot",
    ] {
        assert_eq!(detect_device_type(Some(token)), DeviceType::Bot, "{}", token);
    }
    for token in ["ipad", "tablet", "android"] {
        assert_eq!(detect_device_type(Some(token)), DeviceType::Tablet, "{}", token);
    }
    for token in [
        "mobile",
        "iphone",
        "ipod",
        "android mobile",
        "blackberry",
        "windows phone",
        "opera mini",
        "opera mobi",
    ] {
        assert_eq!(detect_device_type(Some(token)), DeviceType::Mobile, "{}", token);
    }
    for token in ["mozilla", "chrome", "safari", "firefox", "edge", "opera"] {
        assert_eq!(detect_device_type(Some(token)), DeviceType::Desktop, "{}", token);
    }
}

#[test]
fn a_token_must_appear_whole() {
    assert_eq!(detect_device_type(Some("bo")), DeviceType::Unknown);
    assert_eq!(detect_device_type(Some("b-o-t")), DeviceType::Unknown);
    assert_eq!(detect_device_type(Some("windowsphone")), DeviceType::Unknown);
    assert_eq!(detect_device_type(Some("xxbot")), DeviceType::Bot);
    assert_eq!(detect_device_type(Some("botxx")), DeviceType::Bot);
}

#[test]
fn device_names_are_lower_case_words() {
    assert_eq!(DeviceType::Desktop.as_str(), "desktop");
    assert_eq!(DeviceType::Mobile.as_str(), "mobile");
    assert_eq!(DeviceType::Tablet.as_str(), "tablet");
    assert_eq!(DeviceType::Bot.as_str(), "bot");
    assert_eq!(DeviceType::Unknown.as_str(), "unknown");
}
