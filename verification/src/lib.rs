//! A uniform value type for relational column data, with checked
//! conversions to and from native scalar types.

pub mod error;
pub mod float;
pub mod from_value;
pub mod into_value;
pub mod laws;
pub mod outside;
pub mod timestamp;
pub mod value;

pub use error::ConvertError;
pub use float::{Float32, Float64};
pub use timestamp::UtcDateTime;
pub use value::{Value, ValueView};
