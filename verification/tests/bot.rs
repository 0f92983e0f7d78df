use racetime::UDuration;
use racetime::bot::{
    HandleErrorContext, HandledRaces, ReauthDecision, ReauthOutcome, after_reauthorization,
    category_data_path, initial_reconnect_wait, next_reconnect_wait, race_data_path, race_name,
    reauthorization_period, token_lifetime, transient_auth_failure,
};

fn secs(d: &UDuration) -> u64 {
    d.as_secs()
}

#[test]
fn reconnect_wait_doubles_up_to_five_minutes() {
    let quick = UDuration::from_secs(10);
    let mut wait = initial_reconnect_wait();
    assert_eq!(secs(&wait), 1);
    let mut seen = Vec::new();
    for _ in 0..10 {
        wait = next_reconnect_wait(quick, wait);
        seen.push(secs(&wait));
    }
    assert_eq!(seen, vec![2, 4, 8, 16, 32, 64, 128, 256, 300, 300]);
}

#[test]
fn reconnect_wait_resets_after_a_quiet_day() {
    let wait = UDuration::from_mins(5);
    let reset = next_reconnect_wait(UDuration::from_hours(24), wait);
    assert_eq!(secs(&reset), 1);
    let almost = UDuration::new(24 * 3600 - 1, 999_999_999);
    let kept = next_reconnect_wait(almost, wait);
    assert_eq!(secs(&kept), 300);
}

#[test]
fn reconnect_wait_saturates_near_the_maximum() {
    let huge = UDuration::new(u64::MAX, 999_999_999);
    let next = next_reconnect_wait(UDuration::zero(), huge);
    assert_eq!(secs(&next), 300);
}

#[test]
fn token_lifetime_defaults_to_ten_hours() {
    assert_eq!(secs(&token_lifetime(None)), 36000);
    assert_eq!(secs(&token_lifetime(Some(7200))), 7200);
    assert_eq!(secs(&reauthorization_period(token_lifetime(Some(7200)))), 3600);
    let odd = reauthorization_period(UDuration::from_secs(1));
    assert_eq!((odd.as_secs(), odd.subsec_nanos()), (0, 500_000_000));
}

#[test]
fn reauthorization_decisions() {
    let scan = UDuration::from_secs(30);
    match after_reauthorization(UDuration::from_secs(100), scan, ReauthOutcome::Renewed(UDuration::from_secs(36000))) {
        ReauthDecision::Every(p) => assert_eq!(secs(&p), 18000),
        ReauthDecision::Stop => panic!("renewal stopped the bot"),
    }
    match after_reauthorization(UDuration::from_secs(18000), scan, ReauthOutcome::Transient) {
        ReauthDecision::Every(p) => assert_eq!(secs(&p), 9000),
        ReauthDecision::Stop => panic!("transient failure stopped the bot"),
    }
    match after_reauthorization(UDuration::from_secs(60), scan, ReauthOutcome::Transient) {
        ReauthDecision::Every(p) => assert_eq!(secs(&p), 30),
        ReauthDecision::Stop => panic!("retry at the scan interval stopped the bot"),
    }
    assert!(matches!(
        after_reauthorization(UDuration::from_secs(59), scan, ReauthOutcome::Transient),
        ReauthDecision::Stop
    ));
    assert!(matches!(
        after_reauthorization(UDuration::from_secs(18000), scan, ReauthOutcome::Failed),
        ReauthDecision::Stop
    ));
}

#[test]
fn retries_after_transient_failures_run_out() {
    let scan = UDuration::from_secs(30);
    let mut period = UDuration::from_secs(18000);
    let mut retries = 0;
    loop {
        match after_reauthorization(period, scan, ReauthOutcome::Transient) {
            ReauthDecision::Every(p) => {
                assert!(!p.lt(&scan));
                period = p;
                retries += 1;
            }
            ReauthDecision::Stop => break,
        }
    }
    assert_eq!(retries, 9);
}

#[test]
fn transient_auth_failures_are_network_and_server_errors() {
    assert!(transient_auth_failure(None));
    assert!(transient_auth_failure(Some(500)));
    assert!(transient_auth_failure(Some(503)));
    assert!(transient_auth_failure(Some(599)));
    assert!(!transient_auth_failure(Some(600)));
    assert!(!transient_auth_failure(Some(401)));
    assert!(!transient_auth_failure(Some(499)));
}

#[test]
fn handled_races_behave_as_a_set() {
    let mut races = HandledRaces::new();
    assert_eq!(races.len(), 0);
    assert!(!races.contains("test/room"));
    races.insert("test/room".to_string());
    races.insert("test/other".to_string());
    races.insert("test/room".to_string());
    assert_eq!(races.len(), 2);
    assert!(races.contains("test/room"));
    assert!(races.contains("test/other"));
    races.remove("test/room");
    assert!(!races.contains("test/room"));
    assert!(races.contains("test/other"));
    assert_eq!(races.len(), 1);
    races.remove("test/missing");
    assert_eq!(races.len(), 1);
}

#[test]
fn category_and_race_paths() {
    assert_eq!(category_data_path("ootr"), "/o/ootr/data");
    assert_eq!(race_name("ootr", "neat-link-1234"), "ootr/neat-link-1234");
    assert_eq!(race_data_path("ootr", "neat-link-1234"), "/ootr/neat-link-1234/data");
}

#[test]
fn error_context_descriptions() {
    assert_eq!(HandleErrorContext::ChatDelete.description(), "from chat_delete callback");
    assert_eq!(HandleErrorContext::Decode.description(), "while decoding server message");
    assert_eq!(HandleErrorContext::New.description(), "from RaceHandler constructor");
    assert_eq!(HandleErrorContext::Ping.description(), "while sending ping");
    assert_eq!(HandleErrorContext::Reconnect.description(), "while trying to reconnect");
    assert_eq!(HandleErrorContext::Recv.description(), "while waiting for message from server");
    assert_eq!(HandleErrorContext::ServerError.description(), "from error callback");
    assert_eq!(HandleErrorContext::ShouldStop.description(), "from should_stop callback");
}

#[test]
fn error_context_descriptions_are_distinct() {
    type C = HandleErrorContext;
    let all = [
        C::ChatDelete, C::ChatHistory, C::ChatMessage, C::ChatDm, C::ChatPin, C::ChatUnpin, C::ChatPurge,
        C::Decode, C::End, C::New, C::Ping, C::Pong, C::RaceData, C::RaceRenders, C::RaceSplit, C::Reconnect,
        C::Recv, C::ServerError, C::ShouldStop,
    ];
    for (i, a) in all.iter().enumerate() {
        for b in &all[i + 1..] {
            assert_ne!(a.description(), b.description());
        }
    }
}
