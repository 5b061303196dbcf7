//! The linear rendering pipeline: template text in, rendered bytes out.
//!
//! Compilation happens exactly once per invocation and the compiled form
//! is rendered exactly once, against a context built from the injected
//! environment snapshot. Reading the template text and writing the bytes
//! stay outside the library.

use crate::context::Context;
use crate::context::map_of_pairs;
use crate::engine::CompiledTemplate;
use crate::engine::TemplateError;
use crate::engine::builder_build;
use crate::engine::builder_entries;
use crate::engine::builder_flat;
use crate::engine::builder_insert_str;
use crate::engine::builder_new;
use crate::engine::compile;
use crate::engine::compiles;
use crate::engine::data_entries;
use crate::engine::data_flat;
use crate::engine::is_renderable;
use crate::engine::render_to_buffer;
use crate::engine::renderable;
use crate::engine::rendering;
use vstd::prelude::*;

verus! {

/// Turns the context into the engine's data value, entry for entry: the
/// pairs are inserted in snapshot order, so the engine sees exactly the
/// context's mapping.
fn build_data(ctx: &Context) -> (d: mustache::Data)
    ensures
        data_entries(d) == ctx@,
        data_flat(d),
{
    let mut builder = builder_new();
    let pairs = ctx.pairs_ref();
    let ghost all = pairs@;
    let mut i: usize = 0;
    while i < pairs.len()
        invariant
            i <= pairs.len(),
            pairs@ == all,
            builder_entries(builder) == map_of_pairs(all.take(i as int)),
            builder_flat(builder),
        decreases pairs.len() - i,
    {
        let pair = &pairs[i];
        builder = builder_insert_str(builder, pair.0.clone(), pair.1.clone());
        proof {
            assert(all.take(i as int + 1).drop_last() =~= all.take(i as int));
            assert(all.take(i as int + 1).last() == all[i as int]);
        }
        i = i + 1;
    }
    proof {
        assert(all.take(all.len() as int) =~= all);
        ctx.lemma_view_of_pairs();
    }
    builder_build(builder)
}

/// What a full run of the pipeline hands back for a renderable template:
/// either the rendered bytes, or the compilation error for a text the
/// engine refuses. A renderable template that compiled renders without
/// failing into memory.
pub open spec fn render_outcome(text: Seq<char>, ctx: Map<Seq<char>, Seq<char>>) -> Result<
    Seq<u8>,
    TemplateError,
> {
    if compiles(text) {
        Ok(rendering(text, ctx))
    } else {
        Err(TemplateError::Compile)
    }
}

/// Renders a compiled template against the context, producing the output
/// bytes. A renderable template is rendered, and the bytes are exactly
/// the engine's rendering of the template text under the context's
/// mapping; any other template is refused with the render error, since
/// the engine's behaviour on it is not covered by the library's
/// guarantees. In practice that means a template with an implicit `.`
/// tag, which would make the engine abort: a text that is not plain is
/// already refused at compilation, though the guard here re-checks the
/// whole condition.
pub fn render(template: &CompiledTemplate, ctx: &Context) -> (r: Result<Vec<u8>, TemplateError>)
    ensures
        r is Ok <==> renderable(template.source()),
        r is Ok ==> r->Ok_0@ == rendering(template.source(), ctx@),
        r is Err ==> r->Err_0 == TemplateError::Render,
{
    if !is_renderable(template.source_str()) {
        return Err(TemplateError::Render);
    }
    let data = build_data(ctx);
    match render_to_buffer(template, &data) {
        Ok(bytes) => Ok(bytes),
        Err(_) => Err(TemplateError::Render),
    }
}

/// The whole pipeline on in-memory values: compile the template text,
/// build the engine's data from the context, render. For a renderable
/// template the result is pinned: the engine's rendered bytes when the
/// text compiles, the compilation error when it does not. Equal inputs
/// thus give equal results, run after run. Any other template fails: a
/// compilation error where the engine refuses the text or where
/// compiling it would read the filesystem (a partial, a delimiter
/// change), the render error for an implicit `.` tag.
pub fn render_template(text: &str, ctx: &Context) -> (r: Result<Vec<u8>, TemplateError>)
    ensures
        renderable(text@) ==> match render_outcome(text@, ctx@) {
            Ok(bytes) => r matches Ok(out) && out@ == bytes,
            Err(e) => r matches Err(got) && got == e,
        },
        r is Ok ==> renderable(text@),
        renderable(text@) && r is Err ==> r->Err_0 == TemplateError::Compile,
{
    let template = compile(text)?;
    render(&template, ctx)
}

/// Re-running the pipeline changes nothing: the outcome is a function of
/// the template text and the context's mapping alone. Two invocations
/// with the same text whose environment snapshots build the same mapping
/// produce byte-identical results, however the snapshots order their
/// pairs.
pub proof fn lemma_pipeline_deterministic(
    text: Seq<char>,
    first: Seq<(String, String)>,
    second: Seq<(String, String)>,
)
    requires
        map_of_pairs(first) == map_of_pairs(second),
    ensures
        render_outcome(text, map_of_pairs(first)) == render_outcome(text, map_of_pairs(second)),
{
}

} // verus!
