//! Inventory service core: error taxonomy, pagination cursors, row and model
//! conversions, invoice aggregate hydration, request validation and bearer
//! token claims.
pub mod error;
pub mod ids;
pub mod model;
pub mod convert;
pub mod pagination;
pub mod validation;
pub mod services;
pub mod auth;
pub mod text;
