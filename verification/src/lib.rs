//! The rules by which a hut-trip site talks to its search cluster, its object
//! store, its message queue and its database: what each operation sends next,
//! what the answers mean, and how rows and documents become records. Nothing
//! here performs a request; the caller does, and hands over what came back.

pub mod helpers;
pub mod json;
pub mod model;
pub mod text;
