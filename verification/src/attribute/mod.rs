pub mod arguments;
pub mod types;
pub mod transform;
pub mod validate;
pub mod derive;
pub mod use_case;
