use longshot::decimal::u64_to_dec;
use longshot::discord::{classify_profile_response, classify_response, ProfileError, SnipeResult};
use longshot::webhook::delivery_succeeded;

#[test]
fn outcome_table_is_total_and_exact() {
    assert_eq!(classify_response(Some(200)), SnipeResult::Success);
    assert_eq!(classify_response(Some(405)), SnipeResult::DiscordError);
    assert_eq!(classify_response(Some(404)), SnipeResult::FakeOrExpired);
    assert_eq!(classify_response(Some(400)), SnipeResult::AlreadyRedeemed);
    assert_eq!(classify_response(Some(429)), SnipeResult::RateLimited);
    assert_eq!(classify_response(None), SnipeResult::ConnectionError);
    // every other status is Unknown
    assert_eq!(classify_response(Some(201)), SnipeResult::Unknown);
    assert_eq!(classify_response(Some(401)), SnipeResult::Unknown);
    assert_eq!(classify_response(Some(500)), SnipeResult::Unknown);
    assert_eq!(classify_response(Some(0)), SnipeResult::Unknown);
    // deterministic: the same status twice gives the same outcome
    assert_eq!(classify_response(Some(429)), classify_response(Some(429)));
}

#[test]
fn profile_fetch_classification() {
    assert_eq!(classify_profile_response(Some(200)), None);
    assert_eq!(
        classify_profile_response(Some(401)),
        Some(ProfileError::Unauthorized)
    );
    assert_eq!(
        classify_profile_response(Some(429)),
        Some(ProfileError::RateLimited)
    );
    assert_eq!(
        classify_profile_response(None),
        Some(ProfileError::ConnectionError)
    );
    assert_eq!(classify_profile_response(Some(500)), Some(ProfileError::Other));
    assert_eq!(classify_profile_response(Some(403)), Some(ProfileError::Other));
}

#[test]
fn fatal_messages_per_error() {
    assert_eq!(
        ProfileError::Unauthorized.fatal_message(),
        "Main token verification failed. Check token validity."
    );
    assert_eq!(
        ProfileError::RateLimited.fatal_message(),
        "Rate-limited. Try again later..."
    );
    assert_eq!(
        ProfileError::ConnectionError.fatal_message(),
        "Connection failed. Check network connection!"
    );
    assert_eq!(
        ProfileError::Other.fatal_message(),
        "Received unknown response for Discord..."
    );
}

#[test]
fn delivery_succeeds_only_on_no_content() {
    assert!(delivery_succeeded(Some(204)));
    assert!(!delivery_succeeded(Some(200)));
    assert!(!delivery_succeeded(Some(404)));
    assert!(!delivery_succeeded(None));
}

#[test]
fn decimal_rendering() {
    assert_eq!(u64_to_dec(0), "0");
    assert_eq!(u64_to_dec(7), "7");
    assert_eq!(u64_to_dec(10), "10");
    assert_eq!(u64_to_dec(429), "429");
    assert_eq!(u64_to_dec(123456789), "123456789");
    assert_eq!(u64_to_dec(u64::MAX), "18446744073709551615");
}
