//! Tool-side configuration of the generator itself (as opposed to the
//! `.editorconfig` document it emits). Locating and opening the file
//! this points at is I/O and lives with the caller.

use vstd::prelude::*;

verus! {

/// Settings of the generator tool: where its base configuration lives.
#[allow(dead_code)]
pub struct Config {
    base_config_path: String,
}

} // verus!
