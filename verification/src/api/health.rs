//! The health answer.

use vstd::prelude::*;

verus! {

/// The health of the service: the status `ok` and the version.
pub fn health_check() -> (health: (String, String))
    ensures
        health.0@ == "ok"@,
        health.1@ == crate::VERSION@,
{
    ("ok".to_owned(), crate::VERSION.to_owned())
}

} // verus!
