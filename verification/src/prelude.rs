//! Single import surface: re-exports the trait together with the code
//! generator's entry point, so consumers need only one `use`.

pub use crate::codegen::condition_derive;
pub use crate::Condition;
