pub mod ascii;
pub mod case;
pub mod input;
pub mod json;
pub mod text;
pub mod unicode;
pub mod guard;
pub mod execution;
pub mod config;
pub mod context;
pub mod naming;
pub mod event;
pub mod error;
pub mod attribute;
pub mod registration;
