//! Bookkeeping shared by moving and measuring systems: an escort's position
//! along its waypoints, a bounded window of recent samples, and the
//! developer overlay switches.

use vstd::prelude::*;

verus! {

/// Waypoint index after reaching waypoint `current` of `count`, and whether
/// that was the last one (the index then stays on the last waypoint).
pub open spec fn advance_waypoint_spec(current: usize, count: usize) -> (usize, bool) {
    if current + 1 >= count {
        (if count == 0 { 0 } else { (count - 1) as usize }, true)
    } else {
        ((current + 1) as usize, false)
    }
}

/// Advance an escort past the waypoint it has reached.
pub fn advance_waypoint(current: usize, count: usize) -> (r: (usize, bool))
    requires
        current < usize::MAX,
    ensures
        r == advance_waypoint_spec(current, count),
{
    let next = current + 1;
    if next >= count {
        (count.saturating_sub(1), true)
    } else {
        (next, false)
    }
}

/// Effect of `push_sample` on the window.
pub open spec fn push_sample_spec<T>(samples: Seq<T>, max_samples: usize, sample: T) -> Seq<T> {
    if samples.len() >= max_samples {
        samples.drop_first().push(sample)
    } else {
        samples.push(sample)
    }
}

/// Add a sample to a window of at most `max_samples` recent samples,
/// dropping the oldest when the window is full.
pub fn push_sample<T>(samples: &mut Vec<T>, max_samples: usize, sample: T)
    requires
        max_samples > 0 || old(samples)@.len() > 0,
    ensures
        final(samples)@ == push_sample_spec(old(samples)@, max_samples, sample),
{
    if samples.len() >= max_samples {
        samples.remove(0);
    }
    samples.push(sample);
}

/// The window never holds more than its bound once it is within it.
pub proof fn law_window_stays_bounded<T>(samples: Seq<T>, max_samples: usize, sample: T)
    requires
        max_samples > 0,
        samples.len() <= max_samples,
    ensures
        push_sample_spec(samples, max_samples, sample).len() <= max_samples,
        push_sample_spec(samples, max_samples, sample).last() == sample,
{
}

/// Developer overlay switches.
#[derive(Debug, Clone, Copy, PartialEq, Eq, Structural)]
pub struct DevConfig {
    pub show_environment_colliders: bool,
    pub show_player_hitbox: bool,
}

impl Default for DevConfig {
    fn default() -> (r: Self)
        ensures
            !r.show_environment_colliders,
            !r.show_player_hitbox,
    {
        DevConfig { show_environment_colliders: false, show_player_hitbox: false }
    }
}

} // verus!
