use bevy_ios_toolkit::att::{observe_tracking, tracking_request_due, FakeTracking, TrackingStatus};
use bevy_ios_toolkit::gamekit::{
    may_submit, observe_auth, FakeGameCenter, GameCenter, GameCenterAuthState, SubmitScore,
};
use bevy_ios_toolkit::platform::power::{low_power_setting, observe_power, thermal_setting};
use bevy_ios_toolkit::platform::{Haptic, PowerState, ThermalState};

/// One frame of the ATT plugin: poll the status, then forward the requests
/// read this frame.
fn att_frame(status: &mut TrackingStatus, fake: &mut FakeTracking, requests: usize, setting: Option<&str>) {
    observe_tracking(status, fake.status);
    if tracking_request_due(requests) {
        fake.request(setting);
    }
}

#[test]
fn standalone_att_does_not_prompt_without_a_request() {
    let mut status = TrackingStatus::default();
    let mut fake = FakeTracking::new();
    for _ in 0..4 {
        att_frame(&mut status, &mut fake, 0, None);
    }
    assert_eq!(fake.requests, 0);
    assert_eq!(status, TrackingStatus::NotDetermined);
}

#[test]
fn request_resolves_status_and_emits_change() {
    let setting = Some("denied");
    let mut status = TrackingStatus::default();
    let mut fake = FakeTracking::new();

    att_frame(&mut status, &mut fake, 0, setting);
    assert_eq!(status, TrackingStatus::NotDetermined);

    att_frame(&mut status, &mut fake, 1, setting); // pump request
    let changed = observe_tracking(&mut status, fake.status); // poll resolves
    assert!(changed.is_some());

    assert_eq!(status, TrackingStatus::Denied);
    assert_eq!(fake.requests, 1);
    assert!(TrackingStatus::Authorized.is_authorized());
    assert!(!TrackingStatus::NotDetermined.is_determined());
}

#[test]
fn requests_in_one_frame_share_one_native_request() {
    let mut status = TrackingStatus::default();
    let mut fake = FakeTracking::new();
    att_frame(&mut status, &mut fake, 3, None);
    assert_eq!(fake.requests, 1);
    assert!(!tracking_request_due(0));
    assert!(tracking_request_due(1));
}

#[test]
fn a_request_defaults_to_authorized() {
    let mut fake = FakeTracking::new();
    fake.request(None);
    assert_eq!(TrackingStatus::from_i32(fake.status), TrackingStatus::Authorized);
    fake.request(Some("Restricted"));
    assert_eq!(TrackingStatus::from_i32(fake.status), TrackingStatus::Restricted);
}

#[test]
fn submit_dropped_when_unavailable() {
    let mut fake = FakeGameCenter::new();
    let mut gc = GameCenter::default();

    fake.authenticate(Some("unavailable"));
    observe_auth(&mut gc, fake.state);
    assert_eq!(gc.auth, GameCenterAuthState::Unavailable);

    let score = SubmitScore {
        leaderboard_id: "lb.highscore".into(),
        score: 10,
    };
    if may_submit(&gc, &score.leaderboard_id) {
        fake.submit_score(&score.leaderboard_id, score.score);
    }
    assert!(
        fake.submitted_scores().is_empty(),
        "no submit while unauthenticated"
    );
}

#[test]
fn authenticate_then_submit_records() {
    let mut fake = FakeGameCenter::new();
    let mut gc = GameCenter::default();

    fake.authenticate(None); // pump auth
    assert!(observe_auth(&mut gc, fake.state).is_some()); // poll -> Authenticated
    assert!(gc.is_authenticated());
    assert!(observe_auth(&mut gc, fake.state).is_none());

    let submit = SubmitScore {
        leaderboard_id: "lb.highscore".into(),
        score: 4200,
    };
    if may_submit(&gc, &submit.leaderboard_id) {
        fake.submit_score(&submit.leaderboard_id, submit.score);
    }
    assert_eq!(fake.submitted_scores(), vec![("lb.highscore".to_string(), 4200)]);

    assert!(!may_submit(&gc, "lb\0"));
    fake.reset();
    assert!(fake.submitted_scores().is_empty());
}

#[test]
fn thermal_change_updates_resource_and_emits_once() {
    let mut power = PowerState::default();
    let mut written = Vec::new();
    let mut poll = |power: &mut PowerState, thermal: Option<&str>, written: &mut Vec<PowerState>| {
        if let Some(change) = observe_power(power, thermal_setting(thermal), low_power_setting(None)) {
            written.push(change.0);
        }
    };

    poll(&mut power, None, &mut written);
    assert_eq!(power.thermal, ThermalState::Nominal);
    assert!(!power.is_constrained());

    poll(&mut power, Some("serious"), &mut written);
    assert_eq!(power.thermal, ThermalState::Serious);
    assert!(power.is_constrained());

    // The transition wrote exactly one message...
    assert_eq!(written.len(), 1);
    assert_eq!(written[0].thermal, ThermalState::Serious);

    // ...and holding that level writes no more.
    poll(&mut power, Some("serious"), &mut written);
    assert_eq!(written.len(), 1);
}

#[test]
fn low_power_alone_constrains_and_its_setting_is_exact() {
    assert_eq!(low_power_setting(Some("1")), 1);
    assert_eq!(low_power_setting(Some("true")), 1);
    assert_eq!(low_power_setting(Some("TRUE")), 0);
    assert_eq!(thermal_setting(Some("CRITICAL")), 3);
    assert_eq!(thermal_setting(Some("hot")), 0);
    let power = PowerState {
        thermal: ThermalState::Fair,
        low_power_mode: true,
    };
    assert!(power.is_constrained());
    assert!(!PowerState {
        thermal: ThermalState::Fair,
        low_power_mode: false
    }
    .is_constrained());
}

#[test]
fn haptic_kinds_have_their_indices() {
    let kinds = [
        Haptic::Light,
        Haptic::Medium,
        Haptic::Heavy,
        Haptic::Rigid,
        Haptic::Success,
        Haptic::Warning,
        Haptic::Error,
        Haptic::Selection,
    ];
    for (index, kind) in kinds.into_iter().enumerate() {
        assert_eq!(kind.kind_index(), index as i32);
    }
}
