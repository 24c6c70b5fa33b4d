//! The rules of a campus backend, verified: who may do what, what a request
//! writes and answers, how lists are filtered and paged, how uploads are
//! signed and how the session cookie leaves the server.
//!
//! Nothing here talks to a database, a network or a clock on its own
//! account. A function takes what its caller has read, and returns what is to
//! be written and answered. Queries are handed out as text with numbered
//! placeholders and the values for them, so that no value a caller supplies
//! can become part of the SQL.
//!
//! The modules follow the areas of the backend: [`auth`], [`grievances`],
//! [`academic`], [`opportunity`], [`admin`], [`cloudinary`] and
//! [`partitioned_cookies`], over the shared records in [`structs`], the
//! errors in [`error`], the audit entries in [`audit`], the queries in
//! [`query`], and the plain values and text handling in [`primitives`],
//! [`text`] and [`codec`].

pub mod academic;
pub mod admin;
pub mod audit;
pub mod auth;
pub mod cloudinary;
pub mod codec;
pub mod error;
pub mod grievances;
pub mod opportunity;
pub mod partitioned_cookies;
pub mod primitives;
pub mod query;
pub mod structs;
pub mod text;
