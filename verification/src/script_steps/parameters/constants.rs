//! Ids of the boolean parameters that some steps show only when they are set.
use vstd::prelude::*;

verus! {

/// "Skip data entry validation" of Commit Records/Requests.
pub const SKIP_DATA_ENTRY_VALIDATION: u32 = 256;

/// "Override ESS locking conflicts" of Commit Records/Requests.
pub const OVERRIDE_ESS_LOCKING_CONFLICTS: u32 = 512;

/// "Flush cached join results" of Refresh Window.
pub const FLUSH_CACHED_JOIN_RESULTS: u32 = 256;

/// "Flush cached external data" of Refresh Window.
pub const FLUSH_CACHED_EXTERNAL_DATA: u32 = 512;

/// "Select/perform" of Go to Field.
pub const SELECT_PERFORM: u32 = 4096;

} // verus!
