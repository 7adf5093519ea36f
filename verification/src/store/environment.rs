use vstd::prelude::*;

verus! {

/// Explicitly start app-environment resolution. StoreKit's app transaction
/// query can present an Apple Account sign-in sheet, so send this only when
/// the app is ready for that interaction. Repeated requests are ignored.
#[derive(Clone, Copy, Debug)]
pub struct RequestAppStoreEnvironment;

/// The environment reported by the verified StoreKit 2 app transaction.
///
/// TestFlight uses `Sandbox`. Wait for a terminal value, then select
/// production service configuration only when `is_production` returns `true`.
#[derive(Clone, Copy, PartialEq, Eq, Debug, Structural)]
pub enum AppStoreEnvironment {
    /// No request has been sent, or the app transaction is still resolving.
    Pending,
    /// StoreKit testing configured by Xcode.
    Xcode,
    /// The App Store sandbox, including TestFlight.
    Sandbox,
    /// The production App Store.
    Production,
    /// The app transaction could not be loaded or verified.
    Unavailable,
    /// StoreKit returned an environment this toolkit does not yet recognize.
    Unknown,
}

/// The environment that a raw bridge value stands for: the five known wire
/// values, and `Unknown` for anything else.
pub open spec fn spec_environment_from_raw(value: i32) -> AppStoreEnvironment {
    if value == 0 {
        AppStoreEnvironment::Pending
    } else if value == 1 {
        AppStoreEnvironment::Xcode
    } else if value == 2 {
        AppStoreEnvironment::Sandbox
    } else if value == 3 {
        AppStoreEnvironment::Production
    } else if value == 4 {
        AppStoreEnvironment::Unavailable
    } else {
        AppStoreEnvironment::Unknown
    }
}

impl AppStoreEnvironment {
    /// The default value: nothing has been requested yet.
    pub fn pending() -> (env: AppStoreEnvironment)
        ensures
            env == AppStoreEnvironment::Pending,
    {
        AppStoreEnvironment::Pending
    }

    /// Whether StoreKit has produced a terminal result.
    pub fn is_resolved(self) -> (resolved: bool)
        ensures
            resolved <==> self != AppStoreEnvironment::Pending,
    {
        !matches!(self, AppStoreEnvironment::Pending)
    }

    /// Whether production-only service configuration is safe to use.
    ///
    /// Pending, test, unavailable, and unknown environments all return `false`
    /// so callers fail closed to their test configuration.
    pub fn is_production(self) -> (production: bool)
        ensures
            production <==> self == AppStoreEnvironment::Production,
    {
        matches!(self, AppStoreEnvironment::Production)
    }

    /// The lowercase name of the environment, as it is displayed.
    pub fn as_str(self) -> (name: &'static str)
        ensures
            name@ == (match self {
                AppStoreEnvironment::Pending => "pending"@,
                AppStoreEnvironment::Xcode => "xcode"@,
                AppStoreEnvironment::Sandbox => "sandbox"@,
                AppStoreEnvironment::Production => "production"@,
                AppStoreEnvironment::Unavailable => "unavailable"@,
                AppStoreEnvironment::Unknown => "unknown"@,
            }),
    {
        match self {
            AppStoreEnvironment::Pending => "pending",
            AppStoreEnvironment::Xcode => "xcode",
            AppStoreEnvironment::Sandbox => "sandbox",
            AppStoreEnvironment::Production => "production",
            AppStoreEnvironment::Unavailable => "unavailable",
            AppStoreEnvironment::Unknown => "unknown",
        }
    }
}

impl Default for AppStoreEnvironment {
    fn default() -> (env: Self)
        ensures
            env == AppStoreEnvironment::Pending,
    {
        AppStoreEnvironment::Pending
    }
}

/// Decode the bridge's environment value. Unknown values fail closed.
pub fn environment_from_raw(value: i32) -> (env: AppStoreEnvironment)
    ensures
        env == spec_environment_from_raw(value),
{
    match value {
        0 => AppStoreEnvironment::Pending,
        1 => AppStoreEnvironment::Xcode,
        2 => AppStoreEnvironment::Sandbox,
        3 => AppStoreEnvironment::Production,
        4 => AppStoreEnvironment::Unavailable,
        _ => AppStoreEnvironment::Unknown,
    }
}

/// Whether a frame starts native resolution: a request arrived and nothing
/// has started yet.
pub open spec fn starts_resolution(started: bool, requested: bool) -> bool {
    !started && requested
}

/// The start latch after a frame.
pub open spec fn latch_after(started: bool, requested: bool) -> bool {
    started || requested
}

/// Decide, once per frame, whether native environment resolution starts now.
/// `requested` says whether any request arrived this frame; `started` latches
/// the first start so that later requests are ignored.
pub fn take_environment_request(started: &mut bool, requested: bool) -> (start: bool)
    ensures
        start == starts_resolution(*old(started), requested),
        *final(started) == latch_after(*old(started), requested),
{
    if *started || !requested {
        return false;
    }
    *started = true;
    true
}

/// The environment resource after the bridge reported `reported`: the first
/// terminal value is published, and nothing changes it afterwards.
pub open spec fn published_after(current: AppStoreEnvironment, reported: AppStoreEnvironment) -> AppStoreEnvironment {
    if current == AppStoreEnvironment::Pending && reported != AppStoreEnvironment::Pending {
        reported
    } else {
        current
    }
}

/// Publish a terminal environment the first time the bridge reports one.
/// Returns whether the resource changed.
pub fn publish_environment(current: &mut AppStoreEnvironment, reported: AppStoreEnvironment) -> (changed: bool)
    ensures
        *final(current) == published_after(*old(current), reported),
        changed <==> *final(current) != *old(current),
{
    if current.is_resolved() {
        return false;
    }
    if !reported.is_resolved() {
        return false;
    }
    *current = reported;
    true
}

/// Every raw value outside the five known ones is `Unknown`, which is never
/// treated as production.
pub proof fn unknown_raw_values_fail_closed(value: i32)
    requires
        !(0 <= value <= 4),
    ensures
        spec_environment_from_raw(value) == AppStoreEnvironment::Unknown,
        spec_environment_from_raw(value) != AppStoreEnvironment::Production,
{
}

/// Resolution starts at most once: after a frame that started it, no later
/// frame starts it again, whatever requests arrive.
pub proof fn environment_request_starts_only_once(started: bool, requests: Seq<bool>)
    requires
        requests.len() > 0,
        starts_resolution(started, requests[0]),
    ensures
        forall|k: int|
            1 <= k < requests.len() ==> !#[trigger] starts_resolution(
                latch_over(started, requests.take(k)),
                requests[k],
            ),
{
    assert forall|k: int| 1 <= k < requests.len() implies !#[trigger] starts_resolution(
        latch_over(started, requests.take(k)),
        requests[k],
    ) by {
        lemma_latch_stays_set(started, requests.take(k));
    }
}

/// The latch after a run of frames.
pub open spec fn latch_over(started: bool, requests: Seq<bool>) -> bool
    decreases requests.len(),
{
    if requests.len() == 0 {
        started
    } else {
        latch_after(latch_over(started, requests.drop_last()), requests.last())
    }
}

proof fn lemma_latch_stays_set(started: bool, requests: Seq<bool>)
    requires
        requests.len() > 0,
        starts_resolution(started, requests[0]),
    ensures
        latch_over(started, requests),
    decreases requests.len(),
{
    if requests.len() > 1 {
        lemma_latch_stays_set(started, requests.drop_last());
    }
}

/// Once published, the terminal environment never changes again, whatever
/// the bridge reports later.
pub proof fn published_environment_is_immutable(
    current: AppStoreEnvironment,
    first: AppStoreEnvironment,
    later: AppStoreEnvironment,
)
    requires
        first != AppStoreEnvironment::Pending,
    ensures
        published_after(published_after(current, first), later) == published_after(current, first),
{
}

} // verus!
