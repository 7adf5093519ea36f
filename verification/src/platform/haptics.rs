use vstd::prelude::*;

verus! {

/// A haptic to fire. Its kind index is what the native side maps to a
/// feedback generator:
/// - `Light`/`Medium`/`Heavy`/`Rigid` → impact feedback
/// - `Success`/`Warning`/`Error` → notification feedback
/// - `Selection` → selection feedback
#[derive(Clone, Copy, Debug, PartialEq, Eq, Structural)]
pub enum Haptic {
    /// A soft, light thump.
    Light,
    Medium,
    Heavy,
    /// A sharp tick, distinct from the softer light thump.
    Rigid,
    /// A task succeeded (level clear, purchase complete).
    Success,
    /// A caution (invalid action, low resource).
    Warning,
    /// A failure (death, rejected input).
    Error,
    /// A discrete selection change (picker detent, toggle flip).
    Selection,
}

/// The kind index the native side expects.
pub open spec fn haptic_index(kind: Haptic) -> i32 {
    match kind {
        Haptic::Light => 0,
        Haptic::Medium => 1,
        Haptic::Heavy => 2,
        Haptic::Rigid => 3,
        Haptic::Success => 4,
        Haptic::Warning => 5,
        Haptic::Error => 6,
        Haptic::Selection => 7,
    }
}

impl Haptic {
    /// The kind index handed to the native side.
    pub fn kind_index(self) -> (index: i32)
        ensures
            index == haptic_index(self),
    {
        match self {
            Haptic::Light => 0,
            Haptic::Medium => 1,
            Haptic::Heavy => 2,
            Haptic::Rigid => 3,
            Haptic::Success => 4,
            Haptic::Warning => 5,
            Haptic::Error => 6,
            Haptic::Selection => 7,
        }
    }
}

/// Distinct haptics have distinct kind indices.
pub proof fn haptic_indices_are_distinct(a: Haptic, b: Haptic)
    requires
        a != b,
    ensures
        haptic_index(a) != haptic_index(b),
{
}

} // verus!
