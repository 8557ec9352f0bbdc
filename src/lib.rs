//! A todo-list service core: credentials, owner-scoped todos, and a stable
//! error taxonomy, with every operation stated and proved over a model of the store.

pub mod errors;
pub mod credentials;
pub mod request_types;
pub mod outcomes;
pub mod store;
pub mod laws;
