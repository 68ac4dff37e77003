//! The templating engine, taken on trust: declarations of the engine's own
//! types, names for what engine values hold, and thin wrappers around the
//! calls the rest of the library makes.

use vstd::prelude::*;

verus! {

#[verifier::external_type_specification]
#[verifier::external_body]
pub struct ExTera(tera::Tera);

#[verifier::external_type_specification]
#[verifier::external_body]
pub struct ExTeraContext(tera::Context);

#[verifier::external_type_specification]
#[verifier::external_body]
pub struct ExTeraError(tera::Error);

/// The names under which an engine value holds compiled templates.
pub uninterp spec fn template_names(t: tera::Tera) -> Set<Seq<char>>;

/// The key/value entries that an engine context holds.
pub uninterp spec fn context_entries(c: tera::Context) -> Map<Seq<char>, Seq<char>>;

/// Relies on tera::Tera::new: a fresh engine holds no templates.
#[verifier::external_body]
pub(crate) fn engine_new() -> (t: tera::Tera)
    ensures
        template_names(t) == Set::<Seq<char>>::empty(),
{
    tera::Tera::new()
}

/// Relies on tera::Tera::load_from_glob: compiles every file matching the
/// glob and registers it under its path relative to the glob's base
/// directory.  What is found depends on the filesystem, so nothing is
/// promised of the registry afterwards; `engine_template_names` reads it.
#[verifier::external_body]
pub(crate) fn engine_load_glob(t: &mut tera::Tera, pattern: &str) -> (r: Result<
    (),
    tera::Error,
>) {
    t.load_from_glob(pattern)
}

/// The set of texts that a name list holds.
pub open spec fn names_set(names: Seq<String>) -> Set<Seq<char>> {
    names.map_values(|s: String| s@).to_set()
}

/// Relies on tera::Tera::get_template_names: lists the name of every
/// registered template, each exactly once, in no promised order.
#[verifier::external_body]
pub(crate) fn engine_template_names(t: &tera::Tera) -> (r: Vec<String>)
    ensures
        template_names(*t) == names_set(r@),
{
    t.get_template_names().map(|s| s.to_string()).collect()
}

/// The model of a context that holds no entries.
pub open spec fn no_entries() -> Map<Seq<char>, Seq<char>> {
    Map::empty()
}

/// Relies on tera::Context::new: a fresh context holds no entries.
#[verifier::external_body]
pub(crate) fn engine_context_new() -> (c: tera::Context)
    ensures
        context_entries(c) == no_entries(),
{
    tera::Context::new()
}

/// Relies on tera::Context::insert: puts the pair into the context's map,
/// overwriting the key's previous entry if it had one.
#[verifier::external_body]
pub(crate) fn engine_context_insert(c: &mut tera::Context, key: &str, value: &str)
    ensures
        context_entries(*final(c)) == context_entries(*old(c)).insert(key@, value@),
{
    c.insert(key.to_string(), value)
}

/// Relies on tera::Tera::render: evaluates the named template against the
/// context.  Whether it succeeds and what text it produces depend on the
/// template's content, so nothing is promised of the outcome.
#[verifier::external_body]
pub(crate) fn engine_render(t: &tera::Tera, name: &str, c: &tera::Context) -> (r: Result<
    String,
    tera::Error,
>) {
    t.render(name, c)
}

/// Relies on tera::Error's Display implementation: describes the error as
/// text.
#[verifier::external_body]
pub(crate) fn error_text(e: &tera::Error) -> (r: String) {
    e.to_string()
}

/// Relies on std::path::Path::exists: whether the path names an entry that
/// the filesystem holds right now.  The answer depends on the filesystem, so
/// nothing is promised of it.
#[verifier::external_body]
pub(crate) fn path_exists(p: &str) -> (r: bool) {
    std::path::Path::new(p).exists()
}

} // verus!
