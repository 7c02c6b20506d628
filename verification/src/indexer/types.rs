//! Languages, kinds of symbols, and the symbols themselves.

use crate::text::{lowercase, lowercase_of, same};
use vstd::prelude::*;

verus! {

/// A programming language that the index understands.
#[derive(Debug, Clone, Copy, PartialEq, Eq, Structural)]
pub enum Language {
    TypeScript,
    JavaScript,
    Python,
    Go,
    Rust,
}

/// The language of the files with the lowercase extension `ext`, if the
/// index understands it.
pub open spec fn language_of(ext: Seq<char>) -> Option<Language> {
    if ext == "ts"@ || ext == "tsx"@ {
        Some(Language::TypeScript)
    } else if ext == "js"@ || ext == "jsx"@ || ext == "mjs"@ || ext == "cjs"@ {
        Some(Language::JavaScript)
    } else if ext == "py"@ {
        Some(Language::Python)
    } else if ext == "go"@ {
        Some(Language::Go)
    } else if ext == "rs"@ {
        Some(Language::Rust)
    } else {
        None
    }
}

/// The name of a language.
pub open spec fn language_name(language: Language) -> Seq<char> {
    match language {
        Language::TypeScript => "typescript"@,
        Language::JavaScript => "javascript"@,
        Language::Python => "python"@,
        Language::Go => "go"@,
        Language::Rust => "rust"@,
    }
}

impl Language {
    /// The language of the files with the extension `ext` (without its
    /// dot), in whatever case it is written.
    pub fn from_extension(ext: &str) -> (language: Option<Language>)
        ensures
            language == language_of(lowercase_of(ext@)),
    {
        let lower = lowercase(ext);
        Language::from_lowercase_extension(lower.as_str())
    }

    /// The language of the files with the extension `ext`, which is taken
    /// as it is written: `ts` and `tsx` are TypeScript; `js`, `jsx`, `mjs`
    /// and `cjs` are JavaScript; `py` is Python, `go` is Go, `rs` is Rust.
    pub fn from_lowercase_extension(ext: &str) -> (language: Option<Language>)
        ensures
            language == language_of(ext@),
    {
        if same(ext, "ts") || same(ext, "tsx") {
            Some(Language::TypeScript)
        } else if same(ext, "js") || same(ext, "jsx") || same(ext, "mjs") || same(ext, "cjs") {
            Some(Language::JavaScript)
        } else if same(ext, "py") {
            Some(Language::Python)
        } else if same(ext, "go") {
            Some(Language::Go)
        } else if same(ext, "rs") {
            Some(Language::Rust)
        } else {
            None
        }
    }

    /// The name of the language, in lowercase.
    pub fn as_str(&self) -> (name: &'static str)
        ensures
            name@ == language_name(*self),
    {
        match self {
            Language::TypeScript => "typescript",
            Language::JavaScript => "javascript",
            Language::Python => "python",
            Language::Go => "go",
            Language::Rust => "rust",
        }
    }
}

/// A kind of symbol that the index tells apart.
#[derive(Debug, Clone, Copy, PartialEq, Eq, Structural)]
pub enum SymbolKind {
    Function,
    Class,
    Method,
    Interface,
    Type,
    Variable,
    Struct,
    Enum,
    Trait,
    Impl,
}

/// The name of a kind of symbol.
pub open spec fn kind_name(kind: SymbolKind) -> Seq<char> {
    match kind {
        SymbolKind::Function => "function"@,
        SymbolKind::Class => "class"@,
        SymbolKind::Method => "method"@,
        SymbolKind::Interface => "interface"@,
        SymbolKind::Type => "type"@,
        SymbolKind::Variable => "variable"@,
        SymbolKind::Struct => "struct"@,
        SymbolKind::Enum => "enum"@,
        SymbolKind::Trait => "trait"@,
        SymbolKind::Impl => "impl"@,
    }
}

impl SymbolKind {
    /// The name of the kind, in lowercase.
    pub fn as_str(&self) -> (name: &'static str)
        ensures
            name@ == kind_name(*self),
    {
        match self {
            SymbolKind::Function => "function",
            SymbolKind::Class => "class",
            SymbolKind::Method => "method",
            SymbolKind::Interface => "interface",
            SymbolKind::Type => "type",
            SymbolKind::Variable => "variable",
            SymbolKind::Struct => "struct",
            SymbolKind::Enum => "enum",
            SymbolKind::Trait => "trait",
            SymbolKind::Impl => "impl",
        }
    }

    /// Whether symbols found inside a symbol of this kind are named after
    /// it: so it is with classes, structs, traits and impls.
    pub fn is_container(&self) -> (r: bool)
        ensures
            r == (*self == SymbolKind::Class || *self == SymbolKind::Struct || *self
                == SymbolKind::Trait || *self == SymbolKind::Impl),
    {
        match self {
            SymbolKind::Class => true,
            SymbolKind::Struct => true,
            SymbolKind::Trait => true,
            SymbolKind::Impl => true,
            _ => false,
        }
    }
}

/// A symbol found in a source file.
#[derive(Debug, Clone, PartialEq, Eq)]
pub struct ExtractedSymbol {
    /// The file, relative to the workspace.
    pub file: String,
    /// The file, the symbols around this one and its own name, joined by
    /// `::`.
    pub fq_name: String,
    pub kind: SymbolKind,
    /// The first line of the symbol, counted from 1.
    pub span_start_line: u32,
    /// The last line of the symbol, counted from 1.
    pub span_end_line: u32,
    pub line_count: u32,
    /// The SHA-256 hash of the symbol's text, in hexadecimal.
    pub hash: String,
    /// The comments right above the symbol, if there are any.
    pub docstring: Option<String>,
    pub language: Language,
}

/// What an [`ExtractedSymbol`] holds, as mathematical values.
pub struct ExtractedSymbolView {
    pub file: Seq<char>,
    pub fq_name: Seq<char>,
    pub kind: SymbolKind,
    pub span_start_line: int,
    pub span_end_line: int,
    pub line_count: int,
    pub hash: Seq<char>,
    pub docstring: Option<Seq<char>>,
    pub language: Language,
}

impl View for ExtractedSymbol {
    type V = ExtractedSymbolView;

    open spec fn view(&self) -> ExtractedSymbolView {
        ExtractedSymbolView {
            file: self.file@,
            fq_name: self.fq_name@,
            kind: self.kind,
            span_start_line: self.span_start_line as int,
            span_end_line: self.span_end_line as int,
            line_count: self.line_count as int,
            hash: self.hash@,
            docstring: self.docstring.deep_view(),
            language: self.language,
        }
    }
}

impl DeepView for ExtractedSymbol {
    type V = ExtractedSymbolView;

    open spec fn deep_view(&self) -> ExtractedSymbolView {
        self@
    }
}

} // verus!
