//! Core of a layered CRUD service for users and products.
//!
//! The crate models the storage layer as repository traits with full
//! contracts, provides verified in-memory repositories implementing them,
//! and builds the application's use cases (validate, then delegate to a
//! repository) on top. Request/response mapping and the error taxonomy of
//! the HTTP surface are part of the library as well; the network, database
//! driver and process bootstrap live outside it.

pub mod config;
pub mod decimal;
pub mod entities;
pub mod errors;
pub mod http;
pub mod memory;
pub mod product_use_cases;
pub mod repository;
pub mod use_case;
pub mod user_use_cases;
