//! Compile-time overloading support: one named function group holds several
//! argument-list/body pairs; from it the library produces a capability trait,
//! one implementation per declared argument list, and (when no receiver is
//! declared) a dispatching free function, all as host-language tokens.

pub mod generate;
pub mod group;
pub mod laws;
pub mod parse;
pub mod tokens;

pub use generate::function_group;
