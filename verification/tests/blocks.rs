use longshot::discord::Profile;
use longshot::logging::{map_level, LogBlock, LogMessage, Severity};

fn profile() -> Profile {
    Profile::new(
        String::from("finder"),
        Some(String::from("abc")),
        String::from("42"),
    )
}

#[test]
fn freeze_time_first_call_wins() {
    let p = profile();
    let mut log = LogBlock::new(&p, 100);
    log.freeze_time(150);
    assert_eq!(log.elapsed, Some(50));
    log.freeze_time(900);
    assert_eq!(log.elapsed, Some(50));
}

#[test]
fn freeze_time_backwards_clock_is_zero() {
    let p = profile();
    let mut log = LogBlock::new(&p, 100);
    log.freeze_time(40);
    assert_eq!(log.elapsed, Some(0));
}

#[test]
fn severity_markers() {
    assert_eq!(map_level(Severity::Info), "+");
    assert_eq!(map_level(Severity::Trace), "-");
    assert_eq!(map_level(Severity::Error), "✗");
    assert_eq!(map_level(Severity::Debug), "*");
    assert_eq!(map_level(Severity::Warn), "!");
}

#[test]
fn message_rendering() {
    let m = LogMessage {
        level: Severity::Warn,
        text: String::from("Rate-limited..."),
        is_success: false,
    };
    assert_eq!(m.send(), " (!) Rate-limited...");
}

#[test]
fn send_renders_block_in_order() {
    let p = profile();
    let mut log = LogBlock::new(&p, 1000);
    log.add_message(Severity::Info, String::from("first"), false);
    log.add_message(Severity::Error, String::from("second"), false);
    let lines = log.send(
        Some(String::from("My Guild > general")),
        String::from("sender#0001"),
        String::from("12:34:56"),
        1250,
    );
    assert!(log.flushed);
    assert_eq!(
        lines,
        vec![
            String::new(),
            String::from("12:34:56 › (finder) [My Guild > general > sender#0001]"),
            String::from(" (+) first"),
            String::from(" (✗) second"),
            String::from("Finished in: 250ms"),
        ]
    );
}

#[test]
fn send_substitutes_default_location_on_failure() {
    let p = profile();
    let mut log = LogBlock::new(&p, 0);
    log.add_message(Severity::Info, String::from("only"), false);
    log.freeze_time(5);
    let lines = log.send(None, String::from("sender#0001"), String::from("00:00:01"), 9);
    assert_eq!(
        lines,
        vec![
            String::new(),
            String::from("00:00:01 › (finder) [Unknown > sender#0001]"),
            String::from(" (+) only"),
            String::from(" (✗) Failed requesting location for event."),
            String::from("Finished in: 5ms"),
        ]
    );
    // the failure entry joined the block itself
    assert_eq!(log.messages.len(), 2);
    assert_eq!(log.messages[1].text, "Failed requesting location for event.");
    assert_eq!(log.messages[1].level, Severity::Error);
}

#[test]
fn face_with_and_without_avatar() {
    let p = profile();
    assert_eq!(p.face(), "https://cdn.discordapp.com/avatars/42/abc.webp");
    let bare = Profile::new(String::from("finder"), None, String::from("42"));
    assert_eq!(
        bare.face(),
        "https://discordapp.com/assets/6debd47ed13483642cf09e832ed0bc1b.png"
    );
    assert_eq!(p.display_name(), "finder");
}
