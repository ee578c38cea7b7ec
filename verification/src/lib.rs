//! Collision-resistant creation of ephemeral filesystem objects.
//!
//! The crate generates randomized candidate names, claims a unique path in a
//! shared directory through a caller-supplied exclusive-create operation,
//! and tracks the lifecycle of the claimed path so that cleanup runs at most
//! once per handle. All filesystem work is delegated to the attempt
//! operation and to whoever performs the returned cleanup actions; the logic
//! here is pure bookkeeping over paths held as strings.

use vstd::prelude::*;

pub mod error;
pub mod handle;
pub mod util;

pub use error::{AttemptError, Error, ErrorKind};
pub use handle::{CleanupAction, HandleState, ResourceKind, ScopedHandle};
pub use util::{create_helper, create_helper_with_retries, effective_budget, tmpname};

verus! {

/// Default retry budget of the claim loop when the name has a random part.
pub const NUM_RETRIES: u32 = 0x8000_0000;

} // verus!
