use bacchus::hash::{hex_digest, hex_prefix};
use bacchus::indexer::extractor::compute_hash;
use bacchus::indexer::parser::{file_extension, language_for_file, ParserError};
use bacchus::indexer::{Language, SymbolKind};

#[test]
fn languages_are_told_by_extension() {
    assert_eq!(Language::from_extension("ts"), Some(Language::TypeScript));
    assert_eq!(Language::from_extension("tsx"), Some(Language::TypeScript));
    assert_eq!(Language::from_extension("js"), Some(Language::JavaScript));
    assert_eq!(Language::from_extension("jsx"), Some(Language::JavaScript));
    assert_eq!(Language::from_extension("mjs"), Some(Language::JavaScript));
    assert_eq!(Language::from_extension("cjs"), Some(Language::JavaScript));
    assert_eq!(Language::from_extension("py"), Some(Language::Python));
    assert_eq!(Language::from_extension("go"), Some(Language::Go));
    assert_eq!(Language::from_extension("rs"), Some(Language::Rust));
    assert_eq!(Language::from_extension("c"), None);
    assert_eq!(Language::from_extension(""), None);
    assert_eq!(Language::from_extension(".rs"), None);
}

#[test]
fn extensions_are_taken_in_any_case() {
    assert_eq!(Language::from_extension("TS"), Some(Language::TypeScript));
    assert_eq!(Language::from_extension("Py"), Some(Language::Python));
    assert_eq!(Language::from_extension("RS"), Some(Language::Rust));
    assert_eq!(Language::from_lowercase_extension("RS"), None);
    assert_eq!(Language::from_lowercase_extension("rs"), Some(Language::Rust));
}

#[test]
fn languages_and_kinds_have_names() {
    assert_eq!(Language::TypeScript.as_str(), "typescript");
    assert_eq!(Language::JavaScript.as_str(), "javascript");
    assert_eq!(Language::Python.as_str(), "python");
    assert_eq!(Language::Go.as_str(), "go");
    assert_eq!(Language::Rust.as_str(), "rust");
    let kinds = [
        (SymbolKind::Function, "function", false),
        (SymbolKind::Class, "class", true),
        (SymbolKind::Method, "method", false),
        (SymbolKind::Interface, "interface", false),
        (SymbolKind::Type, "type", false),
        (SymbolKind::Variable, "variable", false),
        (SymbolKind::Struct, "struct", true),
        (SymbolKind::Enum, "enum", false),
        (SymbolKind::Trait, "trait", true),
        (SymbolKind::Impl, "impl", true),
    ];
    for (kind, name, container) in kinds {
        assert_eq!(kind.as_str(), name);
        assert_eq!(kind.is_container(), container);
    }
}

#[test]
fn files_are_parsed_by_their_extension() {
    assert_eq!(file_extension("test.ts"), "ts");
    assert_eq!(file_extension("src/lib/a.b.Rs"), "Rs");
    assert_eq!(file_extension("Makefile"), "Makefile");
    assert_eq!(file_extension("trailing."), "");
    assert_eq!(file_extension(""), "");
    assert_eq!(language_for_file("test.ts"), Ok(Language::TypeScript));
    assert_eq!(language_for_file("a/b/main.GO"), Ok(Language::Go));
    assert_eq!(
        language_for_file("notes.txt"),
        Err(ParserError::UnsupportedLanguage("txt".to_string()))
    );
    assert_eq!(
        language_for_file("Makefile"),
        Err(ParserError::UnsupportedLanguage("Makefile".to_string()))
    );
    assert_eq!(
        ParserError::UnsupportedLanguage("txt".to_string()).message(),
        "Unsupported language: txt"
    );
    assert_eq!(ParserError::ParseError.message(), "Failed to parse source code");
    assert_eq!(
        ParserError::InitError("x".to_string()).message(),
        "Failed to initialize parser: x"
    );
}

#[test]
fn hashes_are_sha256_in_hex() {
    assert_eq!(
        compute_hash(""),
        "e3b0c44298fc1c149afbf4c8996fb92427ae41e4649b934ca495991b7852b855"
    );
    assert_eq!(
        compute_hash("abc"),
        "ba7816bf8f01cfea414140de5dae2223b00361a396177a9cb410ff61f20015ad"
    );
    assert_eq!(hex_digest(b"abc"), compute_hash("abc"));
    assert_eq!(hex_prefix(&vec![1, 2, 3, 15, 16, 255], 4), "0102030f");
    assert_eq!(hex_prefix(&vec![0xab, 0xcd], 8), "abcd");
    assert_eq!(hex_prefix(&vec![], 8), "");
    assert_eq!(hex_prefix(&vec![7], 0), "");
}
