//! Campaign data model: behaviour records and mission rules, and the hard
//! cap on awarded points.

use vstd::prelude::*;

verus! {

/// One recorded user behaviour event.
pub struct BehaviourRecord {
    /// The user the event belongs to.
    pub user_id: String,
    /// The kind of event.
    pub event_type: String,
    /// Whether the event succeeded.
    pub success: bool,
    /// How long the event took.
    pub duration_minutes: i64,
    /// When the event was recorded, as text.
    pub created_at: String,
}

/// The rule a generated mission asks the user to satisfy.
pub struct MissionRule {
    /// The mission kind.
    pub mission_type: String,
    /// How many qualifying events are required.
    pub required_count: u32,
    /// The qualifying event type.
    pub event_type: String,
    /// The time window, in hours.
    pub window_hours: u32,
}

/// Caps recommended points at the configured maximum.
pub fn clamp_points(recommended: u32, max_cap: u32) -> (r: u32)
    ensures
        r == if recommended > max_cap { max_cap } else { recommended },
        r <= max_cap,
        r <= recommended,
{
    if recommended > max_cap {
        max_cap
    } else {
        recommended
    }
}

} // verus!
