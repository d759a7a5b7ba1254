//! Session lifecycle for a cookie-authenticated web portal: credential
//! storage, login-token scraping, the login flow and the fetch gateway that
//! re-authenticates once when a response reports an expired session.
//!
//! Logins are not deduplicated across fetches: two fetches that see an
//! expired session at the same time each run a login. That costs a round
//! trip, never correctness, since the cookie jar serialises its updates.

pub mod error;
pub mod token;
pub mod credentials;
pub mod envelope;
pub mod login;
pub mod gateway;
pub mod semester;
