//! The boundary to the template engine. The engine itself is an opaque
//! collaborator: `render` may fail and its output is unspecified, so every
//! decision taken on its outcome lives in verified code (`session` and the
//! page handlers), while the calls themselves stand behind trusted wrappers.

use vstd::prelude::*;
use crate::errors::AppError;
use crate::projection::section_segments_to_string;
use crate::state::SectionState;

verus! {

#[verifier::external_type_specification]
#[verifier::external_body]
pub struct ExTera(tera::Tera);

#[verifier::external_type_specification]
#[verifier::external_body]
pub struct ExContext(tera::Context);

#[verifier::external_type_specification]
#[verifier::external_body]
pub struct ExTeraError(tera::Error);

/// The key-to-text bindings a context holds.
pub uninterp spec fn context_entries(c: tera::Context) -> Map<Seq<char>, Seq<char>>;

/// The binding set of a context that holds nothing yet.
pub open spec fn no_bindings() -> Map<Seq<char>, Seq<char>> {
    Map::empty()
}

/// Relies on `tera::Context::new`: a fresh context holds no bindings.
#[verifier::external_body]
fn context_new() -> (r: tera::Context)
    ensures
        context_entries(r) == no_bindings(),
{
    tera::Context::new()
}

/// Relies on `tera::Context::insert`: binds `key` to `value`, replacing any
/// earlier binding of the same key. Serializing a string slice cannot fail,
/// so the `unwrap` inside `insert` cannot panic here.
#[verifier::external_body]
fn context_insert(c: &mut tera::Context, key: &str, value: &str)
    ensures
        context_entries(*final(c)) == context_entries(*old(c)).insert(key@, value@),
{
    c.insert(key, value);
}

/// Relies on `tera::Tera::render`: renders a loaded template against the
/// context. Which text comes back (or which error) depends on the loaded
/// template set, so nothing is promised of the outcome; callers decide on
/// it in verified code.
#[verifier::external_body]
fn tera_render(t: &tera::Tera, template_name: &str, c: &tera::Context) -> (r: Result<
    String,
    tera::Error,
>) {
    t.render(template_name, c)
}

/// Render `template_name` with the state's display text bound under the
/// `song_section` key — the one binding every page and fragment template
/// uses. The engine's outcome is opaque; a failure is mapped to this
/// library's error type and is fatal only to the operation that asked.
pub fn render_with_section(t: &tera::Tera, template_name: &str, state: &SectionState) -> (r: Result<
    String,
    AppError,
>) {
    let text = section_segments_to_string(state);
    let mut ctx = context_new();
    context_insert(&mut ctx, "song_section", text.as_str());
    match tera_render(t, template_name, &ctx) {
        Ok(body) => Ok(body),
        Err(e) => Err(AppError::TemplateError(e)),
    }
}

} // verus!
