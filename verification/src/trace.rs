//! Configuration of the log filter.

use vstd::prelude::*;

verus! {

/// The filter directives used where none are configured: the service's own
/// records and the server's at debug level, the tracing machinery's at info.
pub open spec fn default_filter() -> Seq<char> {
    "tracing=info,warp=debug,runs_api=debug"@
}

/// The directives of the log filter: the configured ones if there are any,
/// and the default otherwise. `configured` is the value of the setting
/// `RUST_LOG`, read once at startup.
pub fn env_filter_config(configured: Option<String>) -> (directives: String)
    ensures
        directives@ == match configured {
            Some(setting) => setting@,
            None => default_filter(),
        },
{
    match configured {
        Some(setting) => setting,
        None => "tracing=info,warp=debug,runs_api=debug".to_owned(),
    }
}

} // verus!
