//! Game Center: authentication, which gates leaderboard and achievement
//! submission, and the desktop fake's behaviour.

use vstd::prelude::*;
use crate::text::{ascii_lowercase, c_compatible, is_c_compatible, lowercase_equals};

verus! {

/// Game Center authentication state.
#[derive(Clone, Copy, PartialEq, Eq, Debug, Structural)]
pub enum GameCenterAuthState {
    Unknown,
    Authenticating,
    Authenticated,
    /// Signed out, restricted, or Game Center disabled. Submissions are dropped.
    Unavailable,
}

/// The state a raw bridge value stands for.
pub open spec fn auth_of_raw(v: i32) -> GameCenterAuthState {
    if v == 1 {
        GameCenterAuthState::Authenticating
    } else if v == 2 {
        GameCenterAuthState::Authenticated
    } else if v == 3 {
        GameCenterAuthState::Unavailable
    } else {
        GameCenterAuthState::Unknown
    }
}

impl GameCenterAuthState {
    /// Decode the bridge's value: 1 authenticating, 2 authenticated,
    /// 3 unavailable, anything else unknown.
    pub fn from_i32(v: i32) -> (state: GameCenterAuthState)
        ensures
            state == auth_of_raw(v),
    {
        match v {
            1 => GameCenterAuthState::Authenticating,
            2 => GameCenterAuthState::Authenticated,
            3 => GameCenterAuthState::Unavailable,
            _ => GameCenterAuthState::Unknown,
        }
    }
}

impl Default for GameCenterAuthState {
    fn default() -> (state: Self)
        ensures
            state == GameCenterAuthState::Unknown,
    {
        GameCenterAuthState::Unknown
    }
}

/// Game Center state. `auth` gates leaderboard and achievement submission.
#[derive(Clone, Copy, Debug)]
pub struct GameCenter {
    pub auth: GameCenterAuthState,
}

impl Default for GameCenter {
    fn default() -> (gc: Self)
        ensures
            gc.auth == GameCenterAuthState::Unknown,
    {
        GameCenter { auth: GameCenterAuthState::Unknown }
    }
}

impl GameCenter {
    pub fn is_authenticated(&self) -> (authenticated: bool)
        ensures
            authenticated <==> self.auth == GameCenterAuthState::Authenticated,
    {
        self.auth == GameCenterAuthState::Authenticated
    }
}

/// Submit `score` to the leaderboard with this id.
#[derive(Clone, Debug)]
pub struct SubmitScore {
    pub leaderboard_id: String,
    pub score: i64,
}

/// Emitted when the authentication state changes.
#[derive(Clone, Copy, Debug)]
pub struct GameCenterAuthChanged(pub GameCenterAuthState);

/// Whether a submission (a score or achievement progress) for this id reaches
/// the bridge: only when authenticated, and only for an id that can cross the
/// C boundary. Anything else is dropped.
pub fn may_submit(gc: &GameCenter, id: &str) -> (submit: bool)
    ensures
        submit <==> (gc.auth == GameCenterAuthState::Authenticated && c_compatible(id@)),
{
    gc.is_authenticated() && is_c_compatible(id)
}

/// Project the bridge's authentication value. Returns the change to announce
/// when it moved.
pub fn observe_auth(gc: &mut GameCenter, raw: i32) -> (changed: Option<GameCenterAuthChanged>)
    ensures
        final(gc).auth == auth_of_raw(raw),
        changed is Some <==> auth_of_raw(raw) != old(gc).auth,
        changed matches Some(GameCenterAuthChanged(s)) ==> s == auth_of_raw(raw),
{
    let current = GameCenterAuthState::from_i32(raw);
    if current == gc.auth {
        return None;
    }
    gc.auth = current;
    Some(GameCenterAuthChanged(current))
}

/// What authentication resolves to under the desktop fake's setting:
/// unavailable (3) when it says `unavailable`, ignoring ASCII case, and
/// authenticated (2) otherwise.
pub open spec fn auth_of_setting(setting: Option<&str>) -> i32 {
    match setting {
        Some(s) => if ascii_lowercase(s@) == "unavailable"@ { 3 } else { 2 },
        None => 2,
    }
}

/// The desktop stand-in for the Game Center bridge: authentication resolves
/// at once, and submitted scores are recorded in order.
pub struct FakeGameCenter {
    pub state: i32,
    pub scores: Vec<(String, i64)>,
}

impl FakeGameCenter {
    pub fn new() -> (f: Self)
        ensures
            f.state == 0,
            f.scores@.len() == 0,
    {
        FakeGameCenter { state: 0, scores: Vec::new() }
    }

    /// Forget everything.
    pub fn reset(&mut self)
        ensures
            final(self).state == 0,
            final(self).scores@.len() == 0,
    {
        *self = FakeGameCenter::new();
    }

    /// Authenticate: resolves to what the setting says.
    pub fn authenticate(&mut self, setting: Option<&str>)
        ensures
            final(self).state == auth_of_setting(setting),
            final(self).scores@ == old(self).scores@,
    {
        self.state = match setting {
            Some(s) => if lowercase_equals(s, "unavailable") { 3 } else { 2 },
            None => 2,
        };
    }

    /// Record a submitted score.
    pub fn submit_score(&mut self, leaderboard_id: &str, score: i64)
        ensures
            final(self).state == old(self).state,
            final(self).scores@ == old(self).scores@.push(final(self).scores@.last()),
            final(self).scores@.last().0@ == leaderboard_id@,
            final(self).scores@.last().1 == score,
    {
        self.scores.push((String::from_str(leaderboard_id), score));
        assert(self.scores@ =~= old(self).scores@.push(self.scores@.last()));
    }

    /// The scores submitted so far, in order.
    pub fn submitted_scores(&self) -> (scores: Vec<(String, i64)>)
        ensures
            scores@.len() == self.scores@.len(),
            forall|k: int| 0 <= k < scores@.len() ==> (#[trigger] scores@[k]).0@ == self.scores@[k].0@
                && scores@[k].1 == self.scores@[k].1,
    {
        let mut out: Vec<(String, i64)> = Vec::new();
        let mut k: usize = 0;
        while k < self.scores.len()
            invariant
                k <= self.scores@.len(),
                out@.len() == k,
                forall|j: int| 0 <= j < k ==> (#[trigger] out@[j]).0@ == self.scores@[j].0@
                    && out@[j].1 == self.scores@[j].1,
            decreases self.scores@.len() - k,
        {
            let entry = &self.scores[k];
            out.push((String::from_str(entry.0.as_str()), entry.1));
            k = k + 1;
        }
        out
    }
}

impl Default for FakeGameCenter {
    fn default() -> (f: Self)
        ensures
            f.state == 0,
            f.scores@.len() == 0,
    {
        FakeGameCenter::new()
    }
}

/// Only a completed sign-in authenticates: the bridge's value decodes to
/// `Authenticated` exactly when it is 2, so submissions are never sent while
/// authentication is in progress, unavailable or unknown; and the values 0
/// to 3 name four different states.
pub proof fn only_a_completed_sign_in_authenticates(v: i32, w: i32)
    ensures
        auth_of_raw(v) == GameCenterAuthState::Authenticated <==> v == 2,
        0 <= v <= 3 && 0 <= w <= 3 && v != w ==> auth_of_raw(v) != auth_of_raw(w),
{
}

} // verus!
