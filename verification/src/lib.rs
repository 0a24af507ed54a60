//! Baskets of compliance-check work, kept as versioned documents.
//!
//! The crate holds the three mechanisms that the basket service is built on.
//!
//! - [`merge`] reduces the collection steps that checks call for to a
//!   minimal set: each kind of information is asked for once, as strictly as
//!   the strictest step demands. [`api`] and [`document_set`] hold the steps
//!   themselves, [`schema`] the profiles and baskets that carry them.
//! - [`envelope`], [`versions`] and [`codec`] read and write a basket as
//!   stored bytes: a format tag, then a document that names its version and
//!   is carried over to the latest version when it is read.
//! - [`store`] and [`retry`] decide how a basket is updated: read, changed
//!   and written back in one transaction, and tried again after a wait when
//!   the store fails. A driver outside this crate carries the decisions out.
//!
//! Every function is verified against its contract; the laws that relate
//! several functions are stated as proof functions beside them.

pub mod api;
pub mod codec;
pub mod document_set;
pub mod entity;
pub mod envelope;
pub mod ident;
pub mod merge;
pub mod retry;
pub mod scalar;
pub mod schema;
pub mod store;
pub mod versions;

pub use ident::Id;
