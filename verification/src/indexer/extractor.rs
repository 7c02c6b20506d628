//! Finding the symbols of a source file in its syntax tree.

use crate::hash::{hex_digest, hex_digest_of};
use crate::indexer::types::{ExtractedSymbol, ExtractedSymbolView, Language, SymbolKind};
use crate::text::{joined, push_joined, same, span, span_of, trim_of, trimmed};
use vstd::prelude::*;
use vstd::string::StringSliceAdditionalSpecFns;
use vstd::utf8::encode_utf8;

verus! {

/// A node of a syntax tree, as far as the search for symbols reads it.
#[derive(Debug, PartialEq, Eq)]
pub struct SyntaxNode {
    /// What the grammar calls the node.
    pub kind: String,
    /// The name of the field of its parent that the node fills, if any.
    pub field: Option<String>,
    /// Where the node's text begins in the source, in bytes.
    pub start_byte: usize,
    /// Where the node's text ends in the source, in bytes.
    pub end_byte: usize,
    /// The row of the node's first character, counted from 0.
    pub start_row: usize,
    /// The row of the node's last character, counted from 0.
    pub end_row: usize,
    /// The nodes below this one, in the order of the source.
    pub children: Vec<SyntaxNode>,
}

/// The hash by which a symbol's text is recognised: the SHA-256 digest of
/// its bytes, in hexadecimal.
pub fn compute_hash(text: &str) -> (hash: String)
    ensures
        hash@ == hex_digest_of(text.spec_bytes()),
        hash@.len() == 64,
{
    hex_digest(text.as_bytes())
}

/// The text of `node` in `source`.
pub open spec fn text_of(node: SyntaxNode, source: Seq<char>) -> Seq<char> {
    span_of(source, node.start_byte as int, node.end_byte as int)
}

/// The first of `children` from position `from` on that fills the field
/// `field` of its parent.
pub open spec fn first_with_field(children: Seq<SyntaxNode>, field: Seq<char>, from: int) -> Option<
    SyntaxNode,
>
    decreases children.len() - from,
{
    if from < 0 || from >= children.len() {
        None
    } else if children[from].field.deep_view() == Some(field) {
        Some(children[from])
    } else {
        first_with_field(children, field, from + 1)
    }
}

/// Whether `node` is an identifier.
pub open spec fn is_identifier(node: SyntaxNode) -> bool {
    node.kind@ == "identifier"@ || node.kind@ == "type_identifier"@
}

/// The first of `children` from position `from` on that is an identifier.
pub open spec fn first_identifier(children: Seq<SyntaxNode>, from: int) -> Option<SyntaxNode>
    decreases children.len() - from,
{
    if from < 0 || from >= children.len() {
        None
    } else if is_identifier(children[from]) {
        Some(children[from])
    } else {
        first_identifier(children, from + 1)
    }
}

/// The node that names `node`: the child in its field `name`; else the
/// child in its field `identifier`; else its first child that is an
/// identifier.
pub open spec fn name_node(node: SyntaxNode) -> Option<SyntaxNode> {
    match first_with_field(node.children@, "name"@, 0) {
        Some(n) => Some(n),
        None => match first_with_field(node.children@, "identifier"@, 0) {
            Some(n) => Some(n),
            None => first_identifier(node.children@, 0),
        },
    }
}

/// The name of `node`, if it has one.
pub open spec fn name_of(node: SyntaxNode, source: Seq<char>) -> Option<Seq<char>> {
    match name_node(node) {
        Some(n) => Some(text_of(n, source)),
        None => None,
    }
}

/// The name of `node` where a kind of symbol was found for it.
pub open spec fn named(kind: Option<SymbolKind>, node: SyntaxNode, source: Seq<char>) -> (
    Option<SymbolKind>,
    Option<Seq<char>>,
) {
    (
        kind,
        if kind is Some {
            name_of(node, source)
        } else {
            None
        },
    )
}

/// What symbol a node of TypeScript or JavaScript is, if any, and its
/// name. A declaration with `const` or `let` is a function where its first
/// declarator holds an arrow function or a function expression, and a
/// variable where it stands at the top of the program.
pub open spec fn ts_symbol(node: SyntaxNode, parent_kind: Option<Seq<char>>, source: Seq<char>) -> (
    Option<SymbolKind>,
    Option<Seq<char>>,
) {
    let k = node.kind@;
    if k == "function_declaration"@ || k == "function_signature"@ {
        named(Some(SymbolKind::Function), node, source)
    } else if k == "class_declaration"@ {
        named(Some(SymbolKind::Class), node, source)
    } else if k == "method_definition"@ || k == "method_signature"@ {
        named(Some(SymbolKind::Method), node, source)
    } else if k == "interface_declaration"@ {
        named(Some(SymbolKind::Interface), node, source)
    } else if k == "type_alias_declaration"@ {
        named(Some(SymbolKind::Type), node, source)
    } else if k == "lexical_declaration"@ {
        match first_with_field(node.children@, "declarations"@, 0) {
            Some(declarator) => if declarator.children@.len() > 0 {
                let first = declarator.children@[0];
                if holds_function(first) {
                    (Some(SymbolKind::Function), name_of(first, source))
                } else if parent_kind == Some("program"@) {
                    (Some(SymbolKind::Variable), name_of(first, source))
                } else {
                    (None, None)
                }
            } else {
                (None, None)
            },
            None => (None, None),
        }
    } else {
        (None, None)
    }
}

/// Whether the declarator `node` is given a function for its value.
pub open spec fn holds_function(node: SyntaxNode) -> bool {
    match first_with_field(node.children@, "value"@, 0) {
        Some(v) => v.kind@ == "arrow_function"@ || v.kind@ == "function_expression"@,
        None => false,
    }
}

/// What symbol a node of Python is, if any, and its name. A function is a
/// method where it stands in the block of a class.
pub open spec fn python_symbol(
    node: SyntaxNode,
    parent_kind: Option<Seq<char>>,
    grandparent_kind: Option<Seq<char>>,
    source: Seq<char>,
) -> (Option<SymbolKind>, Option<Seq<char>>) {
    let k = node.kind@;
    if k == "function_definition"@ {
        if parent_kind == Some("block"@) && grandparent_kind == Some("class_definition"@) {
            (Some(SymbolKind::Method), name_of(node, source))
        } else {
            (Some(SymbolKind::Function), name_of(node, source))
        }
    } else if k == "class_definition"@ {
        named(Some(SymbolKind::Class), node, source)
    } else {
        (None, None)
    }
}

/// What symbol a node of Go is, if any, and its name. A type declaration is
/// a struct or an interface where its specification says so, and named
/// after the specification.
pub open spec fn go_symbol(node: SyntaxNode, source: Seq<char>) -> (
    Option<SymbolKind>,
    Option<Seq<char>>,
) {
    let k = node.kind@;
    if k == "function_declaration"@ {
        named(Some(SymbolKind::Function), node, source)
    } else if k == "method_declaration"@ {
        named(Some(SymbolKind::Method), node, source)
    } else if k == "type_declaration"@ {
        match first_with_field(node.children@, "type_spec"@, 0) {
            Some(spec) => match first_with_field(spec.children@, "type"@, 0) {
                Some(t) => if t.kind@ == "struct_type"@ {
                    (Some(SymbolKind::Struct), name_of(spec, source))
                } else if t.kind@ == "interface_type"@ {
                    (Some(SymbolKind::Interface), name_of(spec, source))
                } else {
                    named(Some(SymbolKind::Type), node, source)
                },
                None => named(Some(SymbolKind::Type), node, source),
            },
            None => named(Some(SymbolKind::Type), node, source),
        }
    } else {
        (None, None)
    }
}

/// What symbol a node of Rust is, if any, and its name.
pub open spec fn rust_symbol(node: SyntaxNode, source: Seq<char>) -> (
    Option<SymbolKind>,
    Option<Seq<char>>,
) {
    let k = node.kind@;
    if k == "function_item"@ {
        named(Some(SymbolKind::Function), node, source)
    } else if k == "struct_item"@ {
        named(Some(SymbolKind::Struct), node, source)
    } else if k == "enum_item"@ {
        named(Some(SymbolKind::Enum), node, source)
    } else if k == "trait_item"@ {
        named(Some(SymbolKind::Trait), node, source)
    } else if k == "impl_item"@ {
        named(Some(SymbolKind::Impl), node, source)
    } else if k == "type_item"@ {
        named(Some(SymbolKind::Type), node, source)
    } else {
        (None, None)
    }
}

/// What symbol `node` is in `language`, if any, and its name.
pub open spec fn symbol_kind_and_name(
    language: Language,
    node: SyntaxNode,
    parent_kind: Option<Seq<char>>,
    grandparent_kind: Option<Seq<char>>,
    source: Seq<char>,
) -> (Option<SymbolKind>, Option<Seq<char>>) {
    match language {
        Language::TypeScript => ts_symbol(node, parent_kind, source),
        Language::JavaScript => ts_symbol(node, parent_kind, source),
        Language::Python => python_symbol(node, parent_kind, grandparent_kind, source),
        Language::Go => go_symbol(node, source),
        Language::Rust => rust_symbol(node, source),
    }
}

/// The kind of a node, if there is a node.
pub open spec fn kind_of(node: Option<SyntaxNode>) -> Option<Seq<char>> {
    match node {
        Some(n) => Some(n.kind@),
        None => None,
    }
}

/// The comments that end with the node at `at` of `siblings`, the first
/// comment first: the node itself if it is a comment, and before it the
/// comments that follow one another with no line between them. Each comment
/// is trimmed.
pub open spec fn comments_ending(siblings: Seq<SyntaxNode>, at: int, source: Seq<char>) -> Seq<
    Seq<char>,
>
    decreases at,
{
    if at < 0 || at >= siblings.len() || siblings[at].kind@ != "comment"@ {
        Seq::empty()
    } else {
        (if at >= 1 && siblings[at - 1].kind@ == "comment"@ && siblings[at].start_row
            <= siblings[at - 1].end_row + 1 {
            comments_ending(siblings, at - 1, source)
        } else {
            Seq::empty()
        }).push(trim_of(text_of(siblings[at], source)))
    }
}

/// What documents the node at `index` of the children of `parent`: the
/// comments right before it, joined by line breaks. For a node in an export
/// statement these are the comments before the statement, which stands at
/// `parent_index` of the children of `grandparent`.
pub open spec fn docstring_of(
    parent: Option<SyntaxNode>,
    index: int,
    grandparent: Option<SyntaxNode>,
    parent_index: int,
    source: Seq<char>,
) -> Option<Seq<char>> {
    let comments = match parent {
        Some(p) => if p.kind@ == "export_statement"@ {
            match grandparent {
                Some(g) => comments_ending(g.children@, parent_index - 1, source),
                None => Seq::empty(),
            }
        } else {
            comments_ending(p.children@, index - 1, source)
        },
        None => Seq::empty(),
    };
    if comments.len() == 0 {
        None
    } else {
        Some(joined(comments, "\n"@))
    }
}

/// The number of the line in the row `row`: lines are counted from 1, and
/// no further than 32 bits hold.
pub open spec fn line_number(row: int) -> int {
    if row >= u32::MAX {
        u32::MAX as int
    } else {
        row + 1
    }
}

/// How many lines lie from `start_line` to `end_line`, both counted.
pub open spec fn lines_between(start_line: int, end_line: int) -> int {
    if end_line >= start_line {
        end_line - start_line + 1
    } else {
        0
    }
}

/// The full name of the symbol `name` of `file` that lies in the symbols
/// `parents`, the outermost first: all of them joined by `::`.
pub open spec fn full_name(file: Seq<char>, parents: Seq<Seq<char>>, name: Seq<char>) -> Seq<char> {
    file + "::"@ + joined(parents.push(name), "::"@)
}

/// The symbol that `node` is, if it is one and has a name.
pub open spec fn symbol_at(
    node: SyntaxNode,
    parent: Option<SyntaxNode>,
    index: int,
    grandparent: Option<SyntaxNode>,
    parent_index: int,
    file: Seq<char>,
    source: Seq<char>,
    language: Language,
    parents: Seq<Seq<char>>,
) -> Option<ExtractedSymbolView> {
    match symbol_kind_and_name(language, node, kind_of(parent), kind_of(grandparent), source) {
        (Some(kind), Some(name)) => Some(
            ExtractedSymbolView {
                file,
                fq_name: full_name(file, parents, name),
                kind,
                span_start_line: line_number(node.start_row as int),
                span_end_line: line_number(node.end_row as int),
                line_count: lines_between(
                    line_number(node.start_row as int),
                    line_number(node.end_row as int),
                ),
                hash: hex_digest_of(encode_utf8(text_of(node, source))),
                docstring: docstring_of(parent, index, grandparent, parent_index, source),
                language,
            },
        ),
        _ => None,
    }
}

/// The symbols that the nodes below `node` lie in: those of `node`, and
/// `node` itself where it is a class, a struct, a trait or an impl with a
/// name.
pub open spec fn parents_below(
    node: SyntaxNode,
    parent: Option<SyntaxNode>,
    grandparent: Option<SyntaxNode>,
    source: Seq<char>,
    language: Language,
    parents: Seq<Seq<char>>,
) -> Seq<Seq<char>> {
    match symbol_kind_and_name(language, node, kind_of(parent), kind_of(grandparent), source) {
        (Some(kind), Some(name)) => if kind == SymbolKind::Class || kind == SymbolKind::Struct
            || kind == SymbolKind::Trait || kind == SymbolKind::Impl {
            parents.push(name)
        } else {
            parents
        },
        _ => parents,
    }
}

/// The symbols of `node` and of the nodes below it, in the order of the
/// source: a symbol comes before the symbols inside it.
pub open spec fn symbols_in(
    node: SyntaxNode,
    parent: Option<SyntaxNode>,
    index: int,
    grandparent: Option<SyntaxNode>,
    parent_index: int,
    file: Seq<char>,
    source: Seq<char>,
    language: Language,
    parents: Seq<Seq<char>>,
) -> Seq<ExtractedSymbolView>
    decreases node,
{
    (match symbol_at(
        node,
        parent,
        index,
        grandparent,
        parent_index,
        file,
        source,
        language,
        parents,
    ) {
        Some(symbol) => seq![symbol],
        None => Seq::empty(),
    }) + symbols_below(
        node.children@,
        node.children@.len() as int,
        node,
        parent,
        index,
        file,
        source,
        language,
        parents_below(node, parent, grandparent, source, language, parents),
    )
}

/// The symbols of the first `upto` of `children`, which are the children
/// of `parent`, and of the nodes below them.
pub open spec fn symbols_below(
    children: Seq<SyntaxNode>,
    upto: int,
    parent: SyntaxNode,
    grandparent: Option<SyntaxNode>,
    parent_index: int,
    file: Seq<char>,
    source: Seq<char>,
    language: Language,
    parents: Seq<Seq<char>>,
) -> Seq<ExtractedSymbolView>
    decreases children, upto,
{
    if upto <= 0 || upto > children.len() {
        Seq::empty()
    } else {
        symbols_below(
            children,
            upto - 1,
            parent,
            grandparent,
            parent_index,
            file,
            source,
            language,
            parents,
        ) + symbols_in(
            children[upto - 1],
            Some(parent),
            upto - 1,
            grandparent,
            parent_index,
            file,
            source,
            language,
            parents,
        )
    }
}

fn kind_is(node: &SyntaxNode, kind: &str) -> (r: bool)
    ensures
        r == (node.kind@ == kind@),
{
    same(node.kind.as_str(), kind)
}

fn is_kind(node: Option<&SyntaxNode>, kind: &str) -> (r: bool)
    ensures
        r == (kind_of(
            match node {
                Some(n) => Some(*n),
                None => None,
            },
        ) == Some(kind@)),
{
    match node {
        Some(n) => kind_is(n, kind),
        None => false,
    }
}

fn find_field(children: &Vec<SyntaxNode>, field: &str) -> (r: Option<usize>)
    ensures
        match r {
            Some(i) => i < children.len() && first_with_field(children@, field@, 0) == Some(
                children[i as int],
            ),
            None => first_with_field(children@, field@, 0) is None,
        },
{
    let mut i: usize = 0;
    while i < children.len()
        invariant
            i <= children.len(),
            first_with_field(children@, field@, 0) == first_with_field(children@, field@, i as int),
        decreases children.len() - i,
    {
        let fills = match &children[i].field {
            Some(f) => same(f.as_str(), field),
            None => false,
        };
        if fills {
            return Some(i);
        }
        i += 1;
    }
    None
}

fn find_identifier(children: &Vec<SyntaxNode>) -> (r: Option<usize>)
    ensures
        match r {
            Some(i) => i < children.len() && first_identifier(children@, 0) == Some(
                children[i as int],
            ),
            None => first_identifier(children@, 0) is None,
        },
{
    let mut i: usize = 0;
    while i < children.len()
        invariant
            i <= children.len(),
            first_identifier(children@, 0) == first_identifier(children@, i as int),
        decreases children.len() - i,
    {
        if kind_is(&children[i], "identifier") || kind_is(&children[i], "type_identifier") {
            return Some(i);
        }
        i += 1;
    }
    None
}

fn node_text(node: &SyntaxNode, source: &str) -> (text: String)
    ensures
        text@ == text_of(*node, source@),
{
    span(source, node.start_byte, node.end_byte).to_string()
}

/// The name of `node`, if it has one: the text of the child in its field
/// `name`; else of the child in its field `identifier`; else of its first
/// child that is an identifier.
pub fn get_node_name(node: &SyntaxNode, source: &str) -> (name: Option<String>)
    ensures
        name.deep_view() == name_of(*node, source@),
{
    match find_field(&node.children, "name") {
        Some(i) => Some(node_text(&node.children[i], source)),
        None => match find_field(&node.children, "identifier") {
            Some(i) => Some(node_text(&node.children[i], source)),
            None => match find_identifier(&node.children) {
                Some(i) => Some(node_text(&node.children[i], source)),
                None => None,
            },
        },
    }
}

fn with_name(kind: SymbolKind, node: &SyntaxNode, source: &str) -> (r: (
    Option<SymbolKind>,
    Option<String>,
))
    ensures
        (r.0, r.1.deep_view()) == named(Some(kind), *node, source@),
{
    (Some(kind), get_node_name(node, source))
}

/// What symbol a node of TypeScript or JavaScript is, if any, and its
/// name; `parent` is the node above it.
pub fn extract_ts_symbol(node: &SyntaxNode, parent: Option<&SyntaxNode>, source: &str) -> (r: (
    Option<SymbolKind>,
    Option<String>,
))
    ensures
        (r.0, r.1.deep_view()) == ts_symbol(
            *node,
            kind_of(
                match parent {
                    Some(p) => Some(*p),
                    None => None,
                },
            ),
            source@,
        ),
{
    if kind_is(node, "function_declaration") || kind_is(node, "function_signature") {
        with_name(SymbolKind::Function, node, source)
    } else if kind_is(node, "class_declaration") {
        with_name(SymbolKind::Class, node, source)
    } else if kind_is(node, "method_definition") || kind_is(node, "method_signature") {
        with_name(SymbolKind::Method, node, source)
    } else if kind_is(node, "interface_declaration") {
        with_name(SymbolKind::Interface, node, source)
    } else if kind_is(node, "type_alias_declaration") {
        with_name(SymbolKind::Type, node, source)
    } else if kind_is(node, "lexical_declaration") {
        match find_field(&node.children, "declarations") {
            Some(d) => {
                let declarator = &node.children[d];
                if declarator.children.len() > 0 {
                    let first = &declarator.children[0];
                    let function = match find_field(&first.children, "value") {
                        Some(v) => kind_is(&first.children[v], "arrow_function") || kind_is(
                            &first.children[v],
                            "function_expression",
                        ),
                        None => false,
                    };
                    if function {
                        (Some(SymbolKind::Function), get_node_name(first, source))
                    } else if is_kind(parent, "program") {
                        (Some(SymbolKind::Variable), get_node_name(first, source))
                    } else {
                        (None, None)
                    }
                } else {
                    (None, None)
                }
            },
            None => (None, None),
        }
    } else {
        (None, None)
    }
}

/// What symbol a node of Python is, if any, and its name; `parent` and
/// `grandparent` are the two nodes above it.
pub fn extract_python_symbol(
    node: &SyntaxNode,
    parent: Option<&SyntaxNode>,
    grandparent: Option<&SyntaxNode>,
    source: &str,
) -> (r: (Option<SymbolKind>, Option<String>))
    ensures
        (r.0, r.1.deep_view()) == python_symbol(
            *node,
            kind_of(
                match parent {
                    Some(p) => Some(*p),
                    None => None,
                },
            ),
            kind_of(
                match grandparent {
                    Some(g) => Some(*g),
                    None => None,
                },
            ),
            source@,
        ),
{
    if kind_is(node, "function_definition") {
        if is_kind(parent, "block") && is_kind(grandparent, "class_definition") {
            (Some(SymbolKind::Method), get_node_name(node, source))
        } else {
            (Some(SymbolKind::Function), get_node_name(node, source))
        }
    } else if kind_is(node, "class_definition") {
        with_name(SymbolKind::Class, node, source)
    } else {
        (None, None)
    }
}

/// What symbol a node of Go is, if any, and its name.
pub fn extract_go_symbol(node: &SyntaxNode, source: &str) -> (r: (
    Option<SymbolKind>,
    Option<String>,
))
    ensures
        (r.0, r.1.deep_view()) == go_symbol(*node, source@),
{
    if kind_is(node, "function_declaration") {
        with_name(SymbolKind::Function, node, source)
    } else if kind_is(node, "method_declaration") {
        with_name(SymbolKind::Method, node, source)
    } else if kind_is(node, "type_declaration") {
        match find_field(&node.children, "type_spec") {
            Some(s) => {
                let spec = &node.children[s];
                match find_field(&spec.children, "type") {
                    Some(t) => {
                        if kind_is(&spec.children[t], "struct_type") {
                            (Some(SymbolKind::Struct), get_node_name(spec, source))
                        } else if kind_is(&spec.children[t], "interface_type") {
                            (Some(SymbolKind::Interface), get_node_name(spec, source))
                        } else {
                            with_name(SymbolKind::Type, node, source)
                        }
                    },
                    None => with_name(SymbolKind::Type, node, source),
                }
            },
            None => with_name(SymbolKind::Type, node, source),
        }
    } else {
        (None, None)
    }
}

/// What symbol a node of Rust is, if any, and its name.
pub fn extract_rust_symbol(node: &SyntaxNode, source: &str) -> (r: (
    Option<SymbolKind>,
    Option<String>,
))
    ensures
        (r.0, r.1.deep_view()) == rust_symbol(*node, source@),
{
    if kind_is(node, "function_item") {
        with_name(SymbolKind::Function, node, source)
    } else if kind_is(node, "struct_item") {
        with_name(SymbolKind::Struct, node, source)
    } else if kind_is(node, "enum_item") {
        with_name(SymbolKind::Enum, node, source)
    } else if kind_is(node, "trait_item") {
        with_name(SymbolKind::Trait, node, source)
    } else if kind_is(node, "impl_item") {
        with_name(SymbolKind::Impl, node, source)
    } else if kind_is(node, "type_item") {
        with_name(SymbolKind::Type, node, source)
    } else {
        (None, None)
    }
}

fn comments_at(siblings: &Vec<SyntaxNode>, at: usize, source: &str) -> (out: Vec<String>)
    requires
        at < siblings.len(),
    ensures
        out.deep_view() == comments_ending(siblings@, at as int, source@),
    decreases at,
{
    if !kind_is(&siblings[at], "comment") {
        let out: Vec<String> = Vec::new();
        assert(out.deep_view() =~= Seq::<Seq<char>>::empty());
        return out;
    }
    let mut out: Vec<String> = Vec::new();
    assert(out.deep_view() =~= Seq::<Seq<char>>::empty());
    if at >= 1 && kind_is(&siblings[at - 1], "comment") {
        let start = siblings[at].start_row;
        let end = siblings[at - 1].end_row;
        let close = start <= end || start - end <= 1;
        if close {
            out = comments_at(siblings, at - 1, source);
        }
    }
    let ghost before = out.deep_view();
    let text = node_text(&siblings[at], source);
    out.push(trimmed(text.as_str()));
    assert(out.deep_view() =~= before.push(trim_of(text_of(siblings[at as int], source@))));
    out
}

fn comments_before(siblings: &Vec<SyntaxNode>, index: usize, source: &str) -> (out: Vec<String>)
    ensures
        out.deep_view() == comments_ending(siblings@, index - 1, source@),
{
    if index >= 1 && index - 1 < siblings.len() {
        comments_at(siblings, index - 1, source)
    } else {
        let out: Vec<String> = Vec::new();
        assert(out.deep_view() =~= Seq::<Seq<char>>::empty());
        out
    }
}

/// What documents the node at `index` of the children of `parent`: the
/// comments right before it, or, for a node in an export statement, before
/// the statement, which stands at `parent_index` of the children of
/// `grandparent`.
pub fn extract_docstring(
    parent: Option<&SyntaxNode>,
    index: usize,
    grandparent: Option<&SyntaxNode>,
    parent_index: usize,
    source: &str,
) -> (docstring: Option<String>)
    ensures
        docstring.deep_view() == docstring_of(
            match parent {
                Some(p) => Some(*p),
                None => None,
            },
            index as int,
            match grandparent {
                Some(g) => Some(*g),
                None => None,
            },
            parent_index as int,
            source@,
        ),
{
    let comments = match parent {
        Some(p) => {
            if kind_is(p, "export_statement") {
                match grandparent {
                    Some(g) => comments_before(&g.children, parent_index, source),
                    None => {
                        let none: Vec<String> = Vec::new();
                        assert(none.deep_view() =~= Seq::<Seq<char>>::empty());
                        none
                    },
                }
            } else {
                comments_before(&p.children, index, source)
            }
        },
        None => {
            let none: Vec<String> = Vec::new();
            assert(none.deep_view() =~= Seq::<Seq<char>>::empty());
            none
        },
    };
    assert(comments.deep_view().len() == comments.len());
    if comments.len() == 0 {
        None
    } else {
        let mut text = String::new();
        push_joined(&mut text, &comments, "\n");
        assert(text@ =~= joined(comments.deep_view(), "\n"@));
        Some(text)
    }
}

fn line_of(row: usize) -> (line: u32)
    ensures
        line == line_number(row as int),
{
    if row >= 0xffff_ffff {
        0xffff_ffff
    } else {
        (row + 1) as u32
    }
}

fn name_in(file: &str, parents: &Vec<String>, name: &str) -> (full: String)
    ensures
        full@ == full_name(file@, parents.deep_view(), name@),
{
    let mut full = file.to_string();
    full.append("::");
    let ghost head = full@;
    let ghost all = parents.deep_view().push(name@);
    assert(all.drop_last() =~= parents.deep_view());
    assert(parents.deep_view().len() == parents.len());
    if parents.len() > 0 {
        push_joined(&mut full, parents, "::");
        full.append("::");
    }
    full.append(name);
    assert(full@ =~= head + joined(all, "::"@));
    full
}

fn extract_from_node(
    node: &SyntaxNode,
    parent: Option<&SyntaxNode>,
    index: usize,
    grandparent: Option<&SyntaxNode>,
    parent_index: usize,
    file_path: &str,
    source: &str,
    language: Language,
    parent_names: &Vec<String>,
    symbols: &mut Vec<ExtractedSymbol>,
)
    ensures
        final(symbols).deep_view() == old(symbols).deep_view() + symbols_in(
            *node,
            match parent {
                Some(p) => Some(*p),
                None => None,
            },
            index as int,
            match grandparent {
                Some(g) => Some(*g),
                None => None,
            },
            parent_index as int,
            file_path@,
            source@,
            language,
            parent_names.deep_view(),
        ),
    decreases node,
{
    let ghost above: Option<SyntaxNode> = match parent {
        Some(p) => Some(*p),
        None => None,
    };
    let ghost far: Option<SyntaxNode> = match grandparent {
        Some(g) => Some(*g),
        None => None,
    };
    let ghost before = symbols.deep_view();
    let ghost names = parent_names.deep_view();
    let (kind, name) = match language {
        Language::TypeScript => extract_ts_symbol(node, parent, source),
        Language::JavaScript => extract_ts_symbol(node, parent, source),
        Language::Python => extract_python_symbol(node, parent, grandparent, source),
        Language::Go => extract_go_symbol(node, source),
        Language::Rust => extract_rust_symbol(node, source),
    };
    let mut inner: Vec<String> = Vec::new();
    let mut i: usize = 0;
    while i < parent_names.len()
        invariant
            i <= parent_names.len(),
            inner.len() == i,
            forall|j: int| 0 <= j < i ==> (#[trigger] inner[j])@ == parent_names[j]@,
        decreases parent_names.len() - i,
    {
        inner.push(parent_names[i].clone());
        i += 1;
    }
    assert(inner.deep_view() =~= names);
    match (kind, &name) {
        (Some(kind), Some(name)) => {
            let start_line = line_of(node.start_row);
            let end_line = line_of(node.end_row);
            let line_count: u32 = if end_line >= start_line {
                end_line - start_line + 1
            } else {
                0
            };
            let body = span(source, node.start_byte, node.end_byte);
            let symbol = ExtractedSymbol {
                file: file_path.to_string(),
                fq_name: name_in(file_path, parent_names, name.as_str()),
                kind,
                span_start_line: start_line,
                span_end_line: end_line,
                line_count,
                hash: compute_hash(body),
                docstring: extract_docstring(parent, index, grandparent, parent_index, source),
                language,
            };
            let ghost added = symbol@;
            symbols.push(symbol);
            assert(symbols.deep_view() =~= before + seq![added]);
            if kind.is_container() {
                inner.push(name.clone());
                assert(inner.deep_view() =~= names.push(name@));
            }
        },
        _ => {
            assert(symbols.deep_view() =~= before + Seq::<ExtractedSymbolView>::empty());
        },
    }
    let ghost own = symbols.deep_view();
    let ghost below = parents_below(*node, above, far, source@, language, names);
    assert(inner.deep_view() == below);
    let mut k: usize = 0;
    assert(symbols.deep_view() =~= own + symbols_below(
        node.children@,
        0,
        *node,
        above,
        index as int,
        file_path@,
        source@,
        language,
        below,
    ));
    while k < node.children.len()
        invariant
            k <= node.children.len(),
            inner.deep_view() == below,
            symbols.deep_view() == own + symbols_below(
                node.children@,
                k as int,
                *node,
                above,
                index as int,
                file_path@,
                source@,
                language,
                below,
            ),
            above == (match parent {
                Some(p) => Some(*p),
                None => None,
            }),
        decreases node.children.len() - k,
    {
        let ghost sofar = symbols.deep_view();
        extract_from_node(
            &node.children[k],
            Some(node),
            k,
            parent,
            index,
            file_path,
            source,
            language,
            &inner,
            symbols,
        );
        assert(symbols.deep_view() =~= own + symbols_below(
            node.children@,
            k + 1,
            *node,
            above,
            index as int,
            file_path@,
            source@,
            language,
            below,
        ));
        k += 1;
    }
}

/// Finds the symbols of the file at `file_path` in its syntax tree `tree`
/// and its text `source`: functions, classes, methods and what else
/// `language` knows, in the order of the source. A symbol inside a class, a
/// struct, a trait or an impl is named after it.
pub fn extract_symbols(tree: &SyntaxNode, file_path: &str, source: &str, language: Language) -> (symbols:
    Vec<ExtractedSymbol>)
    ensures
        symbols.deep_view() == symbols_in(
            *tree,
            None,
            0,
            None,
            0,
            file_path@,
            source@,
            language,
            Seq::empty(),
        ),
{
    let mut symbols: Vec<ExtractedSymbol> = Vec::new();
    let parents: Vec<String> = Vec::new();
    assert(parents.deep_view() =~= Seq::<Seq<char>>::empty());
    assert(symbols.deep_view() =~= Seq::<ExtractedSymbolView>::empty());
    extract_from_node(tree, None, 0, None, 0, file_path, source, language, &parents, &mut symbols);
    symbols
}

} // verus!
