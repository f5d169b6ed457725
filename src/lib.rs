//! Article publishing core: validated value objects, the article aggregate
//! with its lifecycle rules, and the pagination arithmetic shared by every
//! listing.

mod text;
pub mod error;
pub mod time;
pub mod value_objects;
pub mod article;
pub mod pagination;
pub mod record;
pub mod service;
pub mod page;
pub mod config;
