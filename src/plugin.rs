//! The plugin as the shell sees it.

use vstd::prelude::*;

verus! {

/// The PostgreSQL plugin; it holds no state of its own.
#[derive(Debug, Clone, PartialEq, Eq)]
pub struct PgPlugin {}

impl PgPlugin {
    pub fn new() -> (r: PgPlugin)
        ensures
            r == (PgPlugin {}),
    {
        PgPlugin {}
    }
}

} // verus!
