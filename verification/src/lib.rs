//! The validation and mapping core of a read-only query service that lists
//! breweries, food vendors and the hours at which vendors serve at breweries.
//!
//! Everything here is computation on plain values. Request parameters are
//! validated into a query window, rows are turned into response records or
//! rejected, and each endpoint decides what it answers. Routing, the
//! connection pool, the queries themselves and serialisation live outside and
//! hand their results in.
//!
//! - [`api`]: the schedule query and its validation, and what a listing that
//!   failed is answered with.
//! - [`domain`]: the response records and the all-or-nothing mapping of rows
//!   to them.
//! - [`db`]: the rows, the window of a schedule query and the settings of the
//!   connection.
//! - [`instant`]: instants, read with jiff and written with chrono.
//! - [`ids`]: row identifiers, written with uuid.
//! - [`middleware`]: the identifier that a request carries.

pub mod api;
pub mod db;
pub mod domain;
pub mod ids;
pub mod instant;
pub mod middleware;
