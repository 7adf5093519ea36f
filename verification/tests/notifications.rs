use std::time::Duration;

use bevy_ios_toolkit::notifications::driver::{
    apply_notification_event, cancel_notification, check_schedule, observe_permission,
    record_schedule, refusal, NotificationNotice,
};
use bevy_ios_toolkit::notifications::fake::{request_status, setting_flag, FakeNotificationCenter};
use bevy_ios_toolkit::notifications::{
    NotificationEvent, NotificationPermission, NotificationScheduleFailed, PendingNotifications,
    ScheduleNotification,
};

#[derive(Default)]
struct Settings {
    status: Option<String>,
    opened: Option<String>,
    refuse: Option<String>,
}

#[derive(Default)]
struct Frame {
    request: bool,
    schedules: Vec<ScheduleNotification>,
    cancels: Vec<String>,
    cancel_all: bool,
}

/// The integration driven frame by frame against the fake, in the order the
/// plugin runs its systems: requests, schedules, cancels, poll.
struct Harness {
    permission: NotificationPermission,
    pending: PendingNotifications,
    fake: FakeNotificationCenter,
    settings: Settings,
    changes: Vec<NotificationPermission>,
    opened: Vec<String>,
    failed: Vec<NotificationScheduleFailed>,
}

impl Harness {
    fn new(settings: Settings) -> Self {
        Harness {
            permission: NotificationPermission::default(),
            pending: PendingNotifications::default(),
            fake: FakeNotificationCenter::new(),
            settings,
            changes: Vec::new(),
            opened: Vec::new(),
            failed: Vec::new(),
        }
    }

    fn frame(&mut self, frame: Frame) {
        if frame.request {
            self.fake.request(self.settings.status.as_deref());
        }
        for request in frame.schedules {
            if let Some(failure) = check_schedule(&request) {
                self.failed.push(failure);
                continue;
            }
            let secs = request.after.as_secs_f64();
            let code = self.fake.schedule(&request.id, secs.is_finite() && secs > 0.0, self.settings.refuse.as_deref());
            if let Some(failure) = record_schedule(&mut self.pending, &request.id, code) {
                self.failed.push(failure);
            }
        }
        for id in frame.cancels {
            if cancel_notification(&mut self.pending, &id) {
                self.fake.cancel(&id);
            }
        }
        if frame.cancel_all {
            self.fake.cancel_all();
            self.pending.clear();
        }
        if let Some(change) = observe_permission(&mut self.permission, self.fake.status) {
            self.changes.push(change.0);
        }
        for event in self.fake.drain(self.settings.opened.as_deref()) {
            match apply_notification_event(&mut self.pending, event) {
                NotificationNotice::Opened(open) => self.opened.push(open.0),
                NotificationNotice::Failed(failure) => self.failed.push(failure),
            }
        }
    }

    fn update(&mut self) {
        self.frame(Frame::default());
    }

    fn granted(&mut self) {
        self.frame(Frame {
            request: true,
            ..Frame::default()
        });
        self.update();
    }

    fn schedule(&mut self, requests: Vec<ScheduleNotification>) {
        self.frame(Frame {
            schedules: requests,
            ..Frame::default()
        });
    }
}

fn schedule(id: &str, after: Duration) -> ScheduleNotification {
    ScheduleNotification {
        id: id.into(),
        title: "THE VAN CAME".into(),
        body: "Something new is in the machine.".into(),
        after,
    }
}

#[test]
fn permission_starts_unasked_and_a_request_resolves_it() {
    let mut app = Harness::new(Settings::default());
    app.update();
    assert_eq!(app.permission, NotificationPermission::NotDetermined);

    app.granted();
    assert_eq!(app.permission, NotificationPermission::Authorized);
    assert_eq!(app.changes.len(), 1, "one change, not one a frame");
    assert_eq!(app.changes[0], NotificationPermission::Authorized);
}

#[test]
fn a_refusal_is_reported_with_a_reason_and_nothing_is_pending() {
    let mut app = Harness::new(Settings {
        status: Some("denied".into()),
        ..Settings::default()
    });
    app.granted();
    assert_eq!(app.permission, NotificationPermission::Denied);

    app.schedule(vec![schedule("restock", Duration::from_secs(60))]);
    assert_eq!(app.failed.len(), 1);
    assert!(
        app.failed[0].reason.contains("not authorized"),
        "{:?}",
        app.failed[0].reason
    );
    assert!(app.pending.is_empty());
}

#[test]
fn the_same_id_replaces_rather_than_stacks() {
    let mut app = Harness::new(Settings::default());
    app.granted();

    for _ in 0..3 {
        app.schedule(vec![schedule("restock", Duration::from_secs(60))]);
    }
    assert_eq!(app.pending.len(), 1, "a slipping timer must not queue three");
    assert!(app.pending.contains("restock"));
    assert_eq!(app.fake.scheduled(), vec!["restock".to_string()]);

    // A second, different id is its own thing.
    app.schedule(vec![schedule("route", Duration::from_secs(120))]);
    assert_eq!(app.pending.len(), 2);
}

#[test]
fn cancelling_drops_one_or_all_of_them() {
    let mut app = Harness::new(Settings::default());
    app.granted();
    app.schedule(
        ["restock", "route", "delivery"]
            .into_iter()
            .map(|id| schedule(id, Duration::from_secs(60)))
            .collect(),
    );
    assert_eq!(app.pending.len(), 3);

    app.frame(Frame {
        cancels: vec!["route".into()],
        ..Frame::default()
    });
    assert_eq!(app.pending.len(), 2);
    assert!(!app.pending.contains("route"));
    assert!(!app.fake.scheduled().contains(&"route".to_string()));

    app.frame(Frame {
        cancel_all: true,
        ..Frame::default()
    });
    assert!(app.pending.is_empty());
    assert!(app.fake.scheduled().is_empty());
}

#[test]
fn a_cold_launch_open_arrives_once() {
    let mut app = Harness::new(Settings {
        opened: Some("restock, route".into()),
        ..Settings::default()
    });
    app.update();

    let opened: Vec<String> = app.opened.drain(..).collect();
    assert_eq!(opened, vec!["restock".to_string(), "route".to_string()]);

    // Delivered once, not every frame.
    app.update();
    assert!(app.opened.is_empty());
}

#[test]
fn an_open_clears_what_was_waiting() {
    let mut app = Harness::new(Settings::default());
    app.granted();
    app.schedule(vec![schedule("restock", Duration::from_secs(60))]);
    assert!(app.pending.contains("restock"));

    app.fake.open("restock");
    app.update();
    assert_eq!(app.opened.len(), 1);
    assert_eq!(app.opened[0], "restock");
    assert!(
        !app.pending.contains("restock"),
        "a delivered notification is no longer waiting"
    );
}

#[test]
fn a_schedule_that_fails_later_still_surfaces() {
    let mut app = Harness::new(Settings {
        refuse: Some("1".into()),
        ..Settings::default()
    });
    app.granted();
    app.schedule(vec![schedule("restock", Duration::from_secs(60))]);
    app.update();

    assert_eq!(app.failed.len(), 1);
    assert_eq!(app.failed[0].id, "restock");
    assert!(app.pending.is_empty(), "a request that failed is not pending");
}

#[test]
fn a_time_that_has_already_passed_is_refused() {
    let mut app = Harness::new(Settings::default());
    app.granted();
    app.schedule(vec![schedule("now", Duration::ZERO)]);
    assert_eq!(app.failed.len(), 1);
    assert!(app.failed[0].reason.contains("greater than zero"));
    assert!(app.pending.is_empty());
}

#[test]
fn text_that_cannot_cross_the_boundary_is_refused_not_truncated() {
    let mut app = Harness::new(Settings::default());
    app.granted();
    app.schedule(vec![ScheduleNotification {
        id: "restock".into(),
        title: "THE VAN\0 CAME".into(),
        body: "body".into(),
        after: Duration::from_secs(60),
    }]);
    assert_eq!(app.failed.len(), 1);
    assert!(app.failed[0].reason.contains("NUL"));
    assert!(app.fake.scheduled().is_empty(), "nothing reached the backend");
}

#[test]
fn permission_answers_the_two_questions_a_consumer_asks() {
    assert!(NotificationPermission::Authorized.can_deliver());
    assert!(
        NotificationPermission::Provisional.can_deliver(),
        "quiet delivery is still delivery"
    );
    assert!(!NotificationPermission::Denied.can_deliver());
    assert!(!NotificationPermission::NotDetermined.can_deliver());

    assert!(!NotificationPermission::NotDetermined.is_determined());
    for settled in [
        NotificationPermission::Denied,
        NotificationPermission::Authorized,
        NotificationPermission::Provisional,
    ] {
        assert!(settled.is_determined());
    }
}

#[test]
fn refusal_reasons_are_stated() {
    assert_eq!(refusal(1), "an id and an interval greater than zero are required");
    assert_eq!(refusal(2), "notifications are not authorized");
    assert_eq!(refusal(7), "the system refused the request");
    let mut pending = PendingNotifications::default();
    let failure = record_schedule(&mut pending, "a", 2).unwrap();
    assert_eq!(failure.id, "a");
    assert!(pending.is_empty());
    assert!(record_schedule(&mut pending, "a", 0).is_none());
    assert_eq!(pending.ids(), vec!["a".to_string()]);
}

#[test]
fn the_fake_reads_its_settings_without_regard_to_ascii_case() {
    assert_eq!(request_status(None), 2);
    assert_eq!(request_status(Some("DENIED")), 1);
    assert_eq!(request_status(Some("Provisional")), 3);
    assert_eq!(request_status(Some("notdetermined")), 0);
    assert_eq!(request_status(Some("maybe")), 2);
    assert!(setting_flag(Some("Yes")));
    assert!(setting_flag(Some("TRUE")));
    assert!(!setting_flag(Some("0")));
    assert!(!setting_flag(None));
}

#[test]
fn an_empty_id_is_refused_by_the_fake() {
    let mut fake = FakeNotificationCenter::new();
    fake.request(None);
    assert_eq!(fake.schedule("", true, None), 1);
    assert_eq!(fake.schedule("a", false, None), 1);
    assert_eq!(fake.schedule("a", true, None), 0);
    fake.reset();
    assert_eq!(fake.schedule("a", true, None), 2);
}

#[test]
fn the_first_drain_returns_what_was_queued_then_the_launch_opens() {
    let mut fake = FakeNotificationCenter::new();
    fake.open("restock");
    let events = fake.drain(Some("a, b"));
    let ids: Vec<&str> = events
        .iter()
        .map(|e| match e {
            NotificationEvent::Opened { id } => id.as_str(),
            NotificationEvent::ScheduleFailed { id, .. } => id.as_str(),
        })
        .collect();
    assert_eq!(ids, vec!["restock", "a", "b"]);
    fake.open("later");
    assert_eq!(fake.drain(Some("a, b")).len(), 1);
}
