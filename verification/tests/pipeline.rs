use longshot::discord::{
    announce_claim, record_response, should_attempt, ChatEvent, HandlerInfo, Profile,
    SessionState, SnipeResult,
};
use longshot::logging::{LogBlock, Severity};
use longshot::webhook::{Webhook, WebhookPayload};

fn finder() -> Profile {
    Profile::new(
        String::from("finder"),
        Some(String::from("abc")),
        String::from("42"),
    )
}

fn event() -> ChatEvent {
    ChatEvent {
        message_id: 111,
        author_id: 222,
        author_tag: String::from("author#0001"),
        channel_id: 333,
        guild_id: Some(444),
        content: String::from("free nitro discord.gift/ABC123XYZ0"),
    }
}

#[test]
fn claim_granted_exactly_once_under_many_attempts() {
    let mut info = HandlerInfo::new(3);
    let code = String::from("ABC123XYZ0");
    let mut granted = 0;
    for _ in 0..10 {
        if info.try_claim(&code) {
            granted += 1;
        }
    }
    assert_eq!(granted, 1);
    // an unrelated code is unaffected
    assert!(info.try_claim(&String::from("OTHER")));
}

#[test]
fn scenario_a_success() {
    let mut info = HandlerInfo::new(1);
    let p = finder();
    let code = should_attempt(false, Some(String::from("ABC123XYZ0")), &mut info);
    assert_eq!(code, Some(String::from("ABC123XYZ0")));
    let code = code.unwrap();

    let mut log = LogBlock::new(&p, 1000);
    announce_claim(&mut log, &code);
    let outcome = record_response(&mut log, Some(200), None, None);
    assert_eq!(outcome, SnipeResult::Success);
    log.freeze_time(1020);

    assert_eq!(log.messages.len(), 2);
    assert_eq!(log.messages[0].text, "Claiming code: ABC123XYZ0!");
    assert_eq!(log.messages[0].level, Severity::Info);
    assert_eq!(log.messages[1].text, "Yay! Claimed code!");
    assert!(log.messages[1].is_success); // the highlighted success entry

    let payload = WebhookPayload::new(&event(), &p, outcome, String::from("2020-01-01T00:00:00"));
    let embed = &payload.embeds[0];
    assert_eq!(embed.title, "Yay! Claimed a Nitro!");
    assert_eq!(embed.color, 0x43B581);
}

#[test]
fn scenario_b_duplicate_delivery_produces_nothing() {
    let mut info = HandlerInfo::new(2);
    let first = should_attempt(false, Some(String::from("ABC123XYZ0")), &mut info);
    assert!(first.is_some());
    // the same code delivered again, even by another session's handler
    let second = should_attempt(false, Some(String::from("ABC123XYZ0")), &mut info);
    assert_eq!(second, None); // no log block, no request, no notification
}

#[test]
fn scenario_c_rate_limited() {
    let p = finder();
    let mut log = LogBlock::new(&p, 0);
    let outcome = record_response(&mut log, Some(429), None, None);
    assert_eq!(outcome, SnipeResult::RateLimited);
    assert_eq!(log.messages.len(), 1);
    assert_eq!(log.messages[0].level, Severity::Warn);
    assert_eq!(log.messages[0].text, "Rate-limited...");

    let payload = WebhookPayload::new(&event(), &p, outcome, String::from("ts"));
    assert_eq!(payload.embeds[0].title, "Rate Limited");
    assert_eq!(payload.embeds[0].color, 0xF04747);
}

#[test]
fn scenario_d_transport_failure() {
    let p = finder();
    let mut log = LogBlock::new(&p, 0);
    let outcome = record_response(&mut log, None, None, None);
    assert_eq!(outcome, SnipeResult::ConnectionError);
    assert_eq!(log.messages.len(), 1);
    assert_eq!(log.messages[0].level, Severity::Warn);
    assert_eq!(log.messages[0].text, "Connection failed. Check network connection!");

    // the notification is still dispatched, reporting the failure
    let payload = WebhookPayload::new(&event(), &p, outcome, String::from("ts"));
    assert_eq!(payload.embeds[0].title, "Connection Error");
    assert_eq!(payload.embeds[0].color, 0xF04747);
}

#[test]
fn scenario_e_unknown_response_with_body() {
    let p = finder();
    let mut log = LogBlock::new(&p, 0);
    let outcome = record_response(
        &mut log,
        Some(500),
        Some(String::from("Internal Server Error")),
        Some(String::from("{\"error\":\"internal\"}")),
    );
    assert_eq!(outcome, SnipeResult::Unknown);
    assert_eq!(log.messages.len(), 2);
    assert_eq!(
        log.messages[0].text,
        "Received unknown response... (500 Internal Server Error)"
    );
    assert_eq!(log.messages[0].level, Severity::Error);
    assert_eq!(log.messages[1].text, "...with this body: {\"error\":\"internal\"}");

    // without a readable body the second entry says so
    let mut log2 = LogBlock::new(&p, 0);
    record_response(&mut log2, Some(502), None, None);
    assert_eq!(log2.messages[0].text, "Received unknown response... (502)");
    assert_eq!(
        log2.messages[1].text,
        "...and couldn't parse the body of the response."
    );
}

#[test]
fn excluded_or_codeless_events_are_discarded() {
    let mut info = HandlerInfo::new(1);
    assert_eq!(
        should_attempt(true, Some(String::from("ABC123XYZ0")), &mut info),
        None
    );
    // an excluded event claims nothing: the code is still free afterwards
    assert_eq!(should_attempt(false, None, &mut info), None);
    assert!(should_attempt(false, Some(String::from("ABC123XYZ0")), &mut info).is_some());
}

#[test]
fn payload_depends_on_outcome_only_in_title_description_color() {
    let p = finder();
    let ts = String::from("2020-01-01T00:00:00");
    let a = WebhookPayload::new(&event(), &p, SnipeResult::Success, ts.clone());
    let b = WebhookPayload::new(&event(), &p, SnipeResult::Unknown, ts);
    assert_eq!(a.username, b.username);
    assert_eq!(a.avatar_url, b.avatar_url);
    let ea = &a.embeds[0];
    let eb = &b.embeds[0];
    assert_eq!(ea.author_icon_url, eb.author_icon_url);
    assert_eq!(ea.author_name, eb.author_name);
    assert_eq!(ea.field_sender_name, eb.field_sender_name);
    assert_eq!(ea.field_sender_value, eb.field_sender_value);
    assert_eq!(ea.field_message_name, eb.field_message_name);
    assert_eq!(ea.field_message_value, eb.field_message_value);
    assert_eq!(ea.footer_icon_url, eb.footer_icon_url);
    assert_eq!(ea.footer_text, eb.footer_text);
    assert_eq!(ea.timestamp, eb.timestamp);
    assert_ne!(ea.title, eb.title);
    assert_ne!(ea.description, eb.description);
    assert_ne!(ea.color, eb.color);
}

#[test]
fn payload_fields_are_exact() {
    let p = finder();
    let payload = WebhookPayload::new(&event(), &p, SnipeResult::Success, String::from("ts"));
    assert_eq!(payload.username, "Longshot");
    assert_eq!(payload.avatar_url, "https://yes.nighty.works/raw/IH8LqF.png");
    assert_eq!(payload.embeds.len(), 1);
    let e = &payload.embeds[0];
    assert_eq!(e.author_icon_url, "https://cdn.discordapp.com/avatars/42/abc.webp");
    assert_eq!(e.author_name, "finder");
    assert_eq!(e.field_sender_name, "Code sent by:");
    assert_eq!(
        e.field_sender_value,
        "[author#0001](https://discord.com/users/222)"
    );
    assert_eq!(e.field_message_name, "Message:");
    assert_eq!(
        e.field_message_value,
        "[Posted here!](https://discordapp.com/channels/444/333/111)"
    );
    assert_eq!(e.footer_text, "Longshot 0.1.0");
    assert_eq!(e.timestamp, "ts");

    // a direct message links under the private channel marker
    let mut dm = event();
    dm.guild_id = None;
    let payload = WebhookPayload::new(&dm, &p, SnipeResult::Success, String::from("ts"));
    assert_eq!(
        payload.embeds[0].field_message_value,
        "[Posted here!](https://discordapp.com/channels/@me/333/111)"
    );
}

#[test]
fn readiness_counters_and_announcement() {
    let mut info = HandlerInfo::new(3);
    assert!(!info.record_session_ready(5));
    assert!(!info.record_session_ready(2));
    assert!(info.record_session_ready(4)); // all three accounts connected
    assert_eq!(info.connected, 3);
    assert_eq!(info.total_guilds, 11);

    // a single-account run never gets the aggregate announcement
    let mut solo = HandlerInfo::new(1);
    assert!(!solo.record_session_ready(7));
}

#[test]
fn session_identity_is_set_once() {
    let mut s = SessionState::new();
    assert!(!s.is_ready());
    assert!(s.profile().is_none());
    s.begin_initializing();
    assert!(!s.is_ready());
    s.complete(finder());
    assert!(s.is_ready());
    assert_eq!(s.profile().unwrap().display_name(), "finder");
}

#[test]
fn dedup_tokens_keeps_each_once() {
    let tokens = vec![
        String::from("tok-a"),
        String::from("tok-b"),
        String::from("tok-a"),
        String::from("tok-c"),
        String::from("tok-b"),
    ];
    let unique = longshot::discord::dedup_tokens(tokens);
    assert_eq!(unique.len(), 3);
    assert!(unique.contains(&String::from("tok-a")));
    assert!(unique.contains(&String::from("tok-b")));
    assert!(unique.contains(&String::from("tok-c")));
}

#[test]
fn webhook_keeps_its_url() {
    let w = Webhook::new(String::from("https://example.invalid/hook"));
    assert_eq!(w.url, "https://example.invalid/hook");
}
