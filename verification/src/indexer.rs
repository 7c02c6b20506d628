//! What the symbol index knows of source files: their languages and the
//! symbols found in them.

pub mod extractor;
pub mod parser;
pub mod types;

pub use parser::ParserError;
pub use types::{ExtractedSymbol, Language, SymbolKind};
