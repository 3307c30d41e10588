//! Core of a small blog service: comment pagination, the article read path
//! over an embedded comment list, and the external sign-in flow.

pub mod clock;
pub mod db;
pub mod error;
pub mod flow;
pub mod model;
pub mod oid;
pub mod page;
pub mod pagination;
pub mod signin;
pub mod store;
pub mod view;
