use serenity::http::{parse_webhook, parse_webhook_parts, DOMAINS};

const TOKEN: &str = "ig5AO-wdVWpCBtUUMxmgsWryqgsW3DChbKYOINftJ4DCrUbnkedoYZD0VOH1QLr-S3sV";

#[test]
fn test_webhook_parser() {
    for domain in DOMAINS {
        let url = format!("https://{domain}/api/webhooks/245037420704169985/ig5AO-wdVWpCBtUUMxmgsWryqgsW3DChbKYOINftJ4DCrUbnkedoYZD0VOH1QLr-S3sV").parse().unwrap();
        let (id, token) = parse_webhook(&url).unwrap();
        assert_eq!(id, 245037420704169985);
        assert_eq!(
            token,
            "ig5AO-wdVWpCBtUUMxmgsWryqgsW3DChbKYOINftJ4DCrUbnkedoYZD0VOH1QLr-S3sV"
        );
    }
}

#[test]
fn webhook_doc_example() {
    let url_str = "https://discord.com/api/webhooks/245037420704169985/ig5AO-wdVWpCBtUUMxmgsWryqgsW3DChbKYOINftJ4DCrUbnkedoYZD0VOH1QLr-S3sV";
    let url = url_str.parse().unwrap();
    let (id, token) = parse_webhook(&url).unwrap();
    assert_eq!(id, 245037420704169985);
    assert_eq!(token, TOKEN);
}

#[test]
fn webhook_over_http_is_accepted() {
    let url = format!("http://ptb.discordapp.com/api/webhooks/245037420704169985/{TOKEN}")
        .parse()
        .unwrap();
    let (id, token) = parse_webhook(&url).unwrap();
    assert_eq!(id.get(), 245037420704169985);
    assert_eq!(token, TOKEN);
}

#[test]
fn webhook_with_other_scheme_is_refused() {
    let url = format!("ftp://discord.com/api/webhooks/245037420704169985/{TOKEN}").parse().unwrap();
    assert!(parse_webhook(&url).is_none());
}

#[test]
fn webhook_with_other_domain_is_refused() {
    let url = format!("https://example.com/api/webhooks/245037420704169985/{TOKEN}").parse().unwrap();
    assert!(parse_webhook(&url).is_none());
    let url = format!("https://127.0.0.1/api/webhooks/245037420704169985/{TOKEN}").parse().unwrap();
    assert!(parse_webhook(&url).is_none());
}

#[test]
fn webhook_with_other_path_is_refused() {
    let url = format!("https://discord.com/api/webhook/245037420704169985/{TOKEN}").parse().unwrap();
    assert!(parse_webhook(&url).is_none());
    let url: reqwest::Url = "https://discord.com/api/webhooks/245037420704169985".parse().unwrap();
    assert!(parse_webhook(&url).is_none());
}

#[test]
fn webhook_id_length_is_checked() {
    // 16 digits: too short.
    assert!(parse_webhook_parts("https", Some("discord.com"), &format!("/api/webhooks/2450374207041699/{TOKEN}")).is_none());
    // 17 and 20 digits: the bounds.
    let path = format!("/api/webhooks/24503742070416998/{TOKEN}");
    let (id, _) = parse_webhook_parts("https", Some("discord.com"), &path).unwrap();
    assert_eq!(id, 24503742070416998);
    let path = format!("/api/webhooks/12345678901234567890/{TOKEN}");
    let (id, _) = parse_webhook_parts("https", Some("discord.com"), &path).unwrap();
    assert_eq!(id, 12345678901234567890);
    // 21 digits: too long.
    assert!(parse_webhook_parts("https", Some("discord.com"), &format!("/api/webhooks/123456789012345678901/{TOKEN}")).is_none());
}

#[test]
fn webhook_id_must_be_an_id() {
    // Not a number.
    assert!(parse_webhook_parts("https", Some("discord.com"), &format!("/api/webhooks/24503742070416998x/{TOKEN}")).is_none());
    // u64::MAX is no ID.
    assert!(parse_webhook_parts("https", Some("discord.com"), &format!("/api/webhooks/18446744073709551615/{TOKEN}")).is_none());
    // Beyond u64.
    assert!(parse_webhook_parts("https", Some("discord.com"), &format!("/api/webhooks/18446744073709551616/{TOKEN}")).is_none());
    // A leading plus sign is read as `u64::from_str` reads it.
    let path = format!("/api/webhooks/+245037420704169985/{TOKEN}");
    let (id, _) = parse_webhook_parts("https", Some("discord.com"), &path).unwrap();
    assert_eq!(id, 245037420704169985);
}

#[test]
fn webhook_token_length_is_counted_in_bytes() {
    let id = "245037420704169985";
    // 59 bytes: too short; 60 and 68: the bounds; 69: too long.
    for (len, ok) in [(59, false), (60, true), (68, true), (69, false)] {
        let token = "a".repeat(len);
        let path = format!("/api/webhooks/{id}/{token}");
        assert_eq!(parse_webhook_parts("https", Some("discord.com"), &path).is_some(), ok);
    }
    // Thirty two-byte characters are sixty bytes.
    let token = "é".repeat(30);
    let path = format!("/api/webhooks/{id}/{token}");
    let (_, t) = parse_webhook_parts("https", Some("discord.com"), &path).unwrap();
    assert_eq!(t, token);
    // Twenty-nine are too few.
    let token = "é".repeat(29);
    let path = format!("/api/webhooks/{id}/{token}");
    assert!(parse_webhook_parts("https", Some("discord.com"), &path).is_none());
}

#[test]
fn webhook_token_is_everything_after_the_id() {
    let token = format!("{}/{}", "a".repeat(30), "b".repeat(30));
    let path = format!("/api/webhooks/245037420704169985/{token}");
    let (id, t) = parse_webhook_parts("https", Some("canary.discord.com"), &path).unwrap();
    assert_eq!(id, 245037420704169985);
    assert_eq!(t, token);
}

#[test]
fn webhook_needs_a_domain() {
    let path = format!("/api/webhooks/245037420704169985/{TOKEN}");
    assert!(parse_webhook_parts("https", None, &path).is_none());
    assert!(parse_webhook_parts("https", Some("discord.co"), &path).is_none());
    assert!(parse_webhook_parts("HTTPS", Some("discord.com"), &path).is_none());
}

#[test]
fn webhook_reads_only_scheme_domain_and_path() {
    let base: reqwest::Url = format!("https://discord.com/api/webhooks/245037420704169985/{TOKEN}").parse().unwrap();
    let expected = parse_webhook(&base).map(|(id, token)| (id, token.to_string()));
    assert!(expected.is_some());
    for variant in [
        format!("https://discord.com/api/webhooks/245037420704169985/{TOKEN}?wait=true"),
        format!("https://discord.com/api/webhooks/245037420704169985/{TOKEN}#frag"),
        format!("https://discord.com:8443/api/webhooks/245037420704169985/{TOKEN}"),
    ] {
        let url: reqwest::Url = variant.parse().unwrap();
        let got = parse_webhook(&url).map(|(id, token)| (id, token.to_string()));
        assert_eq!(got, expected);
    }
}
