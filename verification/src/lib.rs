//! A small typed data-access core for a table of housing-price observations.
//!
//! The library owns everything about the table that can be checked statically:
//! the record schema and its column order, the SQL statement texts (including
//! the dynamically assembled partial UPDATE), the mapping from a CSV header and
//! its rows to typed records, the routing of raw statements between the query
//! and execute paths together with the audit-log framing, and an in-memory
//! store that gives the create/read/update/delete operations their exact
//! semantics. A thin unverified shell is expected to carry values between this
//! core and the actual SQL engine, network and file system.

pub mod csvmap;
pub mod record;
pub mod routing;
pub mod sql;
pub mod store;
