//! Required configuration.

use vstd::prelude::*;

verus! {

/// The service's configuration, read from the environment.
pub struct AppConfig;

impl AppConfig {
    /// Whether every required variable was set: `lookups` holds what the
    /// environment gave for each required name.
    pub fn check_vars(lookups: &Vec<Option<String>>) -> (all_set: bool)
        ensures
            all_set == forall|i: int| 0 <= i < lookups@.len() ==> #[trigger] lookups@[i] is Some,
    {
        let mut i: usize = 0;
        while i < lookups.len()
            invariant
                i <= lookups@.len(),
                forall|j: int| 0 <= j < i ==> #[trigger] lookups@[j] is Some,
            decreases lookups@.len() - i,
        {
            if lookups[i].is_none() {
                return false;
            }
            i = i + 1;
        }
        true
    }
}

} // verus!
