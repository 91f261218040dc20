//! Names of the persisted collections and the pagination defaults.

use vstd::prelude::*;

verus! {

/// Database that holds the task collection.
pub const MONGO_DATABASE: &'static str = "rustDB";

/// Collection of user documents.
pub const MONGO_USER_COLLECTION: &'static str = "user";

/// Collection of authentication documents.
pub const MONGO_AUTH_COLLECTION: &'static str = "auth";

/// Collection of task documents.
pub const MONGO_TASK_COLLECTION: &'static str = "task";

/// Offset used by a listing when the caller gives none.
pub const DEFAULT_OFFSET_SIZE: u64 = 0;

/// Limit used by a listing when the caller gives none.
pub const DEFAULT_LIMIT_SIZE: i64 = 20;

} // verus!
