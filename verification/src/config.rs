//! Where the service listens and where it keeps its data.

use vstd::prelude::*;

verus! {

/// The address and port of the listener.
pub const LISTEN_ADDRESS: &'static str = "0.0.0.0:3000";

/// The datastore: a file beside the process.
pub const DATABASE_URL: &'static str = "sqlite:./db.sqlite";

/// How many connections to the datastore are open at once, at most.
pub const MAX_CONNECTIONS: u32 = 5;

} // verus!
