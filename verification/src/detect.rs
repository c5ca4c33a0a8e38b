//! Federation version detection: deciding whether an SDL text declares a
//! federation-two `@link` directive at the schema level.

use vstd::prelude::*;

verus! {

/// The names, in document order, of every directive attached to a schema
/// definition or a schema extension in the concrete syntax tree that
/// `apollo_parser` builds for `sdl`. A directive named `link` anywhere else
/// in the document (for instance on a field) does not appear here.
/// Unparseable input still has a tree, so this is defined for every text.
pub uninterp spec fn schema_level_directive_names(sdl: Seq<char>) -> Seq<Seq<char>>;

/// Holds when some name in `names` is exactly `link`.
pub open spec fn contains_link(names: Seq<Seq<char>>) -> bool {
    exists|i: int| 0 <= i < names.len() && names[i] == "link"@
}

/// Relies on `apollo_parser::Parser::parse`: the concrete syntax tree of an
/// SDL text depends on its characters alone, and this walk collects exactly
/// the names of the directives that sit on schema definitions and schema
/// extensions, in document order. The parser is error-tolerant and never
/// fails, so neither does this.
#[verifier::external_body]
fn collect_schema_directive_names(sdl: &str) -> (names: Vec<String>)
    ensures
        names.deep_view() == schema_level_directive_names(sdl@),
{
    let doc = apollo_parser::Parser::new(sdl).parse().document();
    let mut names: Vec<String> = Vec::new();
    for definition in doc.definitions() {
        let directives = match definition {
            apollo_parser::cst::Definition::SchemaExtension(ext) => ext.directives(),
            apollo_parser::cst::Definition::SchemaDefinition(def) => def.directives(),
            _ => None,
        };
        for directive in directives.into_iter().flat_map(|d| d.directives()) {
            names.extend(directive.name().map(|n| n.text().to_string()));
        }
    }
    names
}

/// Reports whether some name in `names` is exactly `link`.
pub fn any_name_is_link(names: &Vec<String>) -> (r: bool)
    ensures
        r == contains_link(names.deep_view()),
{
    let link: String = String::from_str("link");
    let mut i: usize = 0;
    while i < names.len()
        invariant
            i <= names.len(),
            link@ == "link"@,
            forall|j: int| 0 <= j < i ==> names.deep_view()[j] != "link"@,
        decreases names.len() - i,
    {
        if names[i] == link {
            assert(names.deep_view()[i as int] == names@[i as int]@);
            return true;
        }
        i = i + 1;
    }
    false
}

/// Reports whether `sdl` declares a directive named `link` on a schema
/// definition or schema extension. Schema-level directives alone count: a
/// `link`-named directive elsewhere in the document never triggers a `true`
/// result. Total: any input, well-formed or not, yields a boolean.
pub fn schema_contains_link_directive(sdl: &str) -> (r: bool)
    ensures
        r == contains_link(schema_level_directive_names(sdl@)),
{
    let names = collect_schema_directive_names(sdl);
    any_name_is_link(&names)
}

} // verus!
