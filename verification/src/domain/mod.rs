pub mod key_semantics;
pub mod parser;
pub mod schema;
