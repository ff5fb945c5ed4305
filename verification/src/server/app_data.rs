//! Statistics of a service that has a database connection and nothing else.

use crate::server::prometheus::AsPrometheus;
use vstd::prelude::*;
use vstd::string::StringExecFns;

verus! {

/// What such a service reports of itself.
pub struct DefaultServiceStats {
    /// Whether a connection to the database can be had.
    pub db_connection: bool,
}

/// The line that reports the connection: `1` where there is one, else `0`.
pub open spec fn connection_line(db_connection: bool) -> Seq<char> {
    if db_connection {
        "db_connection 1"@
    } else {
        "db_connection 0"@
    }
}

impl AsPrometheus for DefaultServiceStats {
    fn as_prometheus(&self) -> (out: Vec<String>)
        ensures
            out@.len() == 1,
            out@[0]@ == connection_line(self.db_connection),
    {
        let mut out = Vec::new();
        if self.db_connection {
            out.push(String::from_str("db_connection 1"));
        } else {
            out.push(String::from_str("db_connection 0"));
        }
        out
    }
}

} // verus!
