//! The template engine: compiling mustache template text and rendering it
//! against a flat string-to-string context.
//!
//! The grammar and the rendering algorithm belong to the `mustache` crate
//! and are not restated here; their results are named by uninterpreted
//! spec functions. The names are only claimed for templates the engine is
//! known to handle on the text and the context alone, the renderable
//! ones: plain — no partial (`{{>`), whose file the engine would read
//! from disk while compiling, and no delimiter change (`{{=`) — and
//! with no tag whose name trims to the implicit `.`, since such a tag
//! makes the engine's renderer abort on a flat context. Compilation
//! refuses a text that is not plain before the engine sees it, so the
//! library never reads a file; [`is_renderable`] decides the full
//! condition at run time, so rendering can refuse the templates the
//! guarantees do not cover.

use vstd::prelude::*;

verus! {

/// True when `pat` occurs in `text` starting at position `i`.
pub open spec fn has_pattern_at(text: Seq<char>, i: int, pat: Seq<char>) -> bool {
    0 <= i && i + pat.len() <= text.len() && text.subrange(i, i + pat.len()) == pat
}

/// True when `pat` occurs somewhere in `text`.
pub open spec fn contains_pattern(text: Seq<char>, pat: Seq<char>) -> bool {
    exists|i: int| has_pattern_at(text, i, pat)
}

/// A plain template neither pulls in a partial (`{{>`) nor changes the
/// tag delimiters (`{{=`), so compiling it touches no file and both
/// compilation and rendering depend on the text and the context alone.
pub open spec fn plain_template(text: Seq<char>) -> bool {
    &&& !contains_pattern(text, seq!['{', '{', '>'])
    &&& !contains_pattern(text, seq!['{', '{', '='])
}

/// A character the engine's name trimming removes: the whitespace set
/// of `char::is_whitespace`.
pub open spec fn is_space(c: char) -> bool {
    ||| c == '\u{0009}'
    ||| c == '\u{000A}'
    ||| c == '\u{000B}'
    ||| c == '\u{000C}'
    ||| c == '\u{000D}'
    ||| c == ' '
    ||| c == '\u{0085}'
    ||| c == '\u{00A0}'
    ||| c == '\u{1680}'
    ||| c == '\u{2000}'
    ||| c == '\u{2001}'
    ||| c == '\u{2002}'
    ||| c == '\u{2003}'
    ||| c == '\u{2004}'
    ||| c == '\u{2005}'
    ||| c == '\u{2006}'
    ||| c == '\u{2007}'
    ||| c == '\u{2008}'
    ||| c == '\u{2009}'
    ||| c == '\u{200A}'
    ||| c == '\u{2028}'
    ||| c == '\u{2029}'
    ||| c == '\u{202F}'
    ||| c == '\u{205F}'
    ||| c == '\u{3000}'
}

/// Every character of `text` in `[from, to)` is whitespace.
pub open spec fn spaces_between(text: Seq<char>, from: int, to: int) -> bool {
    forall|m: int| from <= m < to ==> is_space(text[m])
}

/// From `p` on, whitespace only up to a closing `}}` at `k`.
pub open spec fn close_at_after(text: Seq<char>, p: int, k: int) -> bool {
    &&& p <= k
    &&& spaces_between(text, p, k)
    &&& has_pattern_at(text, k, seq!['}', '}'])
}

/// From `p` on, whitespace only and then a closing `}}`.
pub open spec fn close_after(text: Seq<char>, p: int) -> bool {
    exists|k: int| close_at_after(text, p, k)
}

/// At `j` stands a `.`, preceded from `s` by whitespace only and
/// followed by whitespace only up to a closing `}}`: what the engine
/// reads from `s` as a name trims to the single `.`.
pub open spec fn dot_name_at(text: Seq<char>, s: int, j: int) -> bool {
    &&& s <= j < text.len()
    &&& spaces_between(text, s, j)
    &&& text[j] == '.'
    &&& close_after(text, j + 1)
}

/// The name starting at `s` trims to the single `.`.
pub open spec fn lone_dot_name(text: Seq<char>, s: int) -> bool {
    exists|j: int| dot_name_at(text, s, j)
}

/// A sigil the engine reads in front of a tag's name: unescape (`&`),
/// open unescaped (`{`), open a section (`#`), invert one (`^`), close
/// one (`/`). A comment (`!`) has no name and is dropped, so it is no
/// sigil here.
pub open spec fn is_tag_sigil(c: char) -> bool {
    c == '&' || c == '{' || c == '#' || c == '^' || c == '/'
}

/// A tag opens at `i` and its name, after an optional sigil, trims to
/// the single implicit `.`.
pub open spec fn implicit_tag_at(text: Seq<char>, i: int) -> bool {
    &&& has_pattern_at(text, i, seq!['{', '{'])
    &&& {
        ||| lone_dot_name(text, i + 2)
        ||| (i + 2 < text.len() && is_tag_sigil(text[i + 2]) && lone_dot_name(text, i + 3))
    }
}

/// Some tag of the template carries the implicit `.` name, which
/// addresses the whole context rather than one of its entries; an
/// interpolation tag with that name makes the engine's renderer abort
/// on a flat context instead of returning an error. A dot anywhere else
/// — in a comment, in a dotted name path, in plain text — is harmless
/// and allowed.
pub open spec fn implicit_dot_tag(text: Seq<char>) -> bool {
    exists|i: int| implicit_tag_at(text, i)
}

/// A template the engine is trusted to render without failing: plain, so
/// that its compiled form holds nothing a partial file or a delimiter
/// change smuggled in, and free of implicit `.` tags, so that no tag can
/// make the renderer abort.
pub open spec fn renderable(text: Seq<char>) -> bool {
    plain_template(text) && !implicit_dot_tag(text)
}

/// Decides whether `{{` followed immediately by `sigil` occurs in the
/// text.
fn scan_open_sigil(text: &str, sigil: char) -> (b: bool)
    ensures
        b == contains_pattern(text@, seq!['{', '{', sigil]),
{
    let n = text.unicode_len();
    if n < 3 {
        proof {
            assert forall|j: int| !has_pattern_at(text@, j, seq!['{', '{', sigil]) by {}
        }
        return false;
    }
    let mut i: usize = 0;
    while i < n - 2
        invariant
            3 <= n,
            n == text@.len(),
            i <= n - 2,
            forall|j: int| 0 <= j < i ==> !has_pattern_at(text@, j, seq!['{', '{', sigil]),
        decreases n - i,
    {
        if text.get_char(i) == '{' && text.get_char(i + 1) == '{' && text.get_char(i + 2)
            == sigil {
            proof {
                assert(text@.subrange(i as int, i as int + 3) =~= seq!['{', '{', sigil]);
                assert(has_pattern_at(text@, i as int, seq!['{', '{', sigil]));
                assert(contains_pattern(text@, seq!['{', '{', sigil]));
            }
            return true;
        }
        proof {
            if has_pattern_at(text@, i as int, seq!['{', '{', sigil]) {
                assert(text@.subrange(i as int, i as int + 3)[0] == '{');
                assert(text@.subrange(i as int, i as int + 3)[1] == '{');
                assert(text@.subrange(i as int, i as int + 3)[2] == sigil);
            }
        }
        i = i + 1;
    }
    proof {
        assert forall|j: int| !has_pattern_at(text@, j, seq!['{', '{', sigil]) by {
            if 0 <= j && j + 3 <= n {
                assert(j < i);
            }
        }
    }
    false
}

/// Decides whether the engine's name trimming treats `c` as whitespace.
fn space_char(c: char) -> (b: bool)
    ensures
        b == is_space(c),
{
    c == '\u{0009}' || c == '\u{000A}' || c == '\u{000B}' || c == '\u{000C}' || c == '\u{000D}'
        || c == ' ' || c == '\u{0085}' || c == '\u{00A0}' || c == '\u{1680}' || c == '\u{2000}'
        || c == '\u{2001}' || c == '\u{2002}' || c == '\u{2003}' || c == '\u{2004}'
        || c == '\u{2005}' || c == '\u{2006}' || c == '\u{2007}' || c == '\u{2008}'
        || c == '\u{2009}' || c == '\u{200A}' || c == '\u{2028}' || c == '\u{2029}'
        || c == '\u{202F}' || c == '\u{205F}' || c == '\u{3000}'
}

/// Walks past whitespace from `from`, stopping at the first other
/// character or the end of the text.
fn skip_spaces(text: &str, from: usize) -> (r: usize)
    requires
        from <= text@.len(),
    ensures
        from <= r <= text@.len(),
        spaces_between(text@, from as int, r as int),
        r < text@.len() ==> !is_space(text@[r as int]),
{
    let n = text.unicode_len();
    let mut j: usize = from;
    while j < n
        invariant
            from <= j <= n,
            n == text@.len(),
            spaces_between(text@, from as int, j as int),
        decreases n - j,
    {
        if !space_char(text.get_char(j)) {
            return j;
        }
        proof {
            assert forall|m: int| from <= m < j + 1 implies is_space(text@[m]) by {
                if m < j {
                    assert(is_space(text@[m]));
                }
            }
        }
        j = j + 1;
    }
    n
}

/// Decides whether the name starting at `s` trims to the single `.`.
fn scan_lone_dot_name(text: &str, s: usize) -> (b: bool)
    requires
        s <= text@.len(),
    ensures
        b == lone_dot_name(text@, s as int),
{
    let n = text.unicode_len();
    let j = skip_spaces(text, s);
    if j == n || text.get_char(j) != '.' {
        proof {
            assert forall|j2: int| !dot_name_at(text@, s as int, j2) by {
                if s as int <= j2 < n as int && spaces_between(text@, s as int, j2) && text@[j2]
                    == '.' {
                    if j2 < j as int {
                        assert(is_space(text@[j2]));
                        assert(false);
                    } else if j2 == j as int {
                        assert(false);
                    } else {
                        assert(is_space(text@[j as int]));
                        assert(false);
                    }
                }
            }
        }
        return false;
    }
    let k = skip_spaces(text, j + 1);
    if n - k >= 2 && text.get_char(k) == '}' && text.get_char(k + 1) == '}' {
        proof {
            assert(text@.subrange(k as int, k as int + 2) =~= seq!['}', '}']);
            assert(has_pattern_at(text@, k as int, seq!['}', '}']));
            assert(close_at_after(text@, j as int + 1, k as int));
            assert(close_after(text@, j as int + 1));
            assert(dot_name_at(text@, s as int, j as int));
            assert(lone_dot_name(text@, s as int));
        }
        return true;
    }
    proof {
        assert forall|j2: int| !dot_name_at(text@, s as int, j2) by {
            if s as int <= j2 < n as int && spaces_between(text@, s as int, j2) && text@[j2]
                == '.' {
                if j2 < j as int {
                    assert(is_space(text@[j2]));
                    assert(false);
                } else if j2 > j as int {
                    assert(is_space(text@[j as int]));
                    assert(false);
                } else {
                    if close_after(text@, j as int + 1) {
                        let p: int = j as int + 1;
                        let k2 = choose|k2: int| close_at_after(text@, p, k2);
                        if k2 < k as int {
                            assert(is_space(text@[k2]));
                            assert(text@.subrange(k2, k2 + 2)[0] == '}');
                            assert(false);
                        } else if k2 > k as int {
                            assert(is_space(text@[k as int]));
                            assert(false);
                        } else {
                            assert(text@.subrange(k as int, k as int + 2)[0] == '}');
                            assert(text@.subrange(k as int, k as int + 2)[1] == '}');
                            assert(false);
                        }
                    }
                }
            }
        }
    }
    false
}

/// Decides whether some tag of the text carries the implicit `.` name.
fn scan_implicit_tag(text: &str) -> (b: bool)
    ensures
        b == implicit_dot_tag(text@),
{
    let n = text.unicode_len();
    if n < 2 {
        proof {
            assert forall|a: int| !implicit_tag_at(text@, a) by {}
        }
        return false;
    }
    let mut i: usize = 0;
    while i < n - 1
        invariant
            2 <= n,
            n == text@.len(),
            i <= n - 1,
            forall|a: int| 0 <= a < i ==> !implicit_tag_at(text@, a),
        decreases n - i,
    {
        if text.get_char(i) == '{' && text.get_char(i + 1) == '{' {
            proof {
                assert(text@.subrange(i as int, i as int + 2) =~= seq!['{', '{']);
                assert(has_pattern_at(text@, i as int, seq!['{', '{']));
            }
            if scan_lone_dot_name(text, i + 2) {
                proof {
                    assert(implicit_tag_at(text@, i as int));
                }
                return true;
            }
            if i < n - 2 {
                let c = text.get_char(i + 2);
                if c == '&' || c == '{' || c == '#' || c == '^' || c == '/' {
                    if scan_lone_dot_name(text, i + 3) {
                        proof {
                            assert(implicit_tag_at(text@, i as int));
                        }
                        return true;
                    }
                }
            }
        } else {
            proof {
                if has_pattern_at(text@, i as int, seq!['{', '{']) {
                    assert(text@.subrange(i as int, i as int + 2)[0] == '{');
                    assert(text@.subrange(i as int, i as int + 2)[1] == '{');
                }
            }
        }
        i = i + 1;
    }
    proof {
        assert forall|a: int| !implicit_tag_at(text@, a) by {
            if has_pattern_at(text@, a, seq!['{', '{']) {
                assert(a < i);
            }
        }
    }
    false
}

/// Decides whether the text is a renderable template, exactly as
/// [`renderable`] states it.
pub fn is_renderable(text: &str) -> (b: bool)
    ensures
        b == renderable(text@),
{
    !scan_open_sigil(text, '>') && !scan_open_sigil(text, '=') && !scan_implicit_tag(text)
}

#[verifier::external_type_specification]
#[verifier::external_body]
pub struct ExTemplate(mustache::Template);

#[verifier::external_type_specification]
#[verifier::external_body]
pub struct ExData(mustache::Data);

#[verifier::external_type_specification]
#[verifier::external_body]
pub struct ExMapBuilder(mustache::MapBuilder);

#[verifier::external_type_specification]
#[verifier::external_body]
pub struct ExMustacheError(mustache::Error);

/// The string entries of a map builder: each key inserted so far, mapped
/// to the string value most recently inserted under it.
pub uninterp spec fn builder_entries(b: mustache::MapBuilder) -> Map<Seq<char>, Seq<char>>;

/// True of a map builder that holds only string values.
pub uninterp spec fn builder_flat(b: mustache::MapBuilder) -> bool;

/// The string entries of a built data value, keyed as in the builder.
pub uninterp spec fn data_entries(d: mustache::Data) -> Map<Seq<char>, Seq<char>>;

/// True of a data value that is a single map from names to strings,
/// holding no nested vector, map, boolean or function values.
pub uninterp spec fn data_flat(d: mustache::Data) -> bool;

/// Whether the engine accepts a plain template text.
pub uninterp spec fn compiles(text: Seq<char>) -> bool;

/// The bytes the engine produces for a renderable template text
/// rendered against a flat context.
pub uninterp spec fn rendering(text: Seq<char>, ctx: Map<Seq<char>, Seq<char>>) -> Seq<u8>;

/// The mapping with no entries at all.
pub open spec fn no_entries() -> Map<Seq<char>, Seq<char>> {
    Map::empty()
}

/// Relies on mustache::MapBuilder::new: the fresh builder holds no entry.
#[verifier::external_body]
pub(crate) fn builder_new() -> (b: mustache::MapBuilder)
    ensures
        builder_entries(b) == no_entries(),
        builder_flat(b),
{
    mustache::MapBuilder::new()
}

/// Relies on mustache::MapBuilder::insert_str: it stores the value as a
/// string under the key, replacing any earlier entry with the same key,
/// and leaves every other entry alone.
#[verifier::external_body]
pub(crate) fn builder_insert_str(b: mustache::MapBuilder, key: String, value: String) -> (r:
    mustache::MapBuilder)
    ensures
        builder_entries(r) == builder_entries(b).insert(key@, value@),
        builder_flat(b) ==> builder_flat(r),
{
    b.insert_str(key, value)
}

/// Relies on mustache::MapBuilder::build: it wraps the builder's map as a
/// data value without touching the entries.
#[verifier::external_body]
pub(crate) fn builder_build(b: mustache::MapBuilder) -> (d: mustache::Data)
    ensures
        data_entries(d) == builder_entries(b),
        builder_flat(b) ==> data_flat(d),
{
    b.build()
}

/// Relies on mustache::compile_str: for a plain template — the only
/// kind this wrapper is given — the parse never meets a partial, so it
/// reads no file and whether it succeeds depends on the text alone.
#[verifier::external_body]
pub(crate) fn mustache_compile(text: &str) -> (r: Result<mustache::Template, mustache::Error>)
    requires
        plain_template(text@),
    ensures
        r is Ok <==> compiles(text@),
{
    mustache::compile_str(text)
}

/// A compiled template together with the text it was compiled from.
///
/// The fields are private to this module and the only constructor is
/// [`compile`], so `inner` always is the engine's compiled form of
/// `source_text`; the trusted contract of [`render_to_buffer`] leans on
/// that.
pub struct CompiledTemplate {
    inner: mustache::Template,
    source_text: String,
}

impl CompiledTemplate {
    /// The template text this value was compiled from.
    pub closed spec fn source(&self) -> Seq<char> {
        self.source_text@
    }

    /// The template text this value was compiled from.
    pub fn source_str(&self) -> (r: &str)
        ensures
            r@ == self.source(),
    {
        self.source_text.as_str()
    }
}

/// Relies on mustache::Template::render_data. For a renderable template
/// rendering flat data into an in-memory buffer always succeeds: writes
/// to the buffer cannot fail; a plain template's compiled form holds no
/// partial, so no file is read and no token the text does not show; flat
/// data holds only string values, so the renderer reaches no function
/// value to call; and with no implicit `.` tag, no tag resolves to the
/// context map itself, the one value that makes the renderer abort. The
/// bytes written then depend on the template text and the entries
/// alone.
#[verifier::external_body]
pub(crate) fn render_to_buffer(t: &CompiledTemplate, d: &mustache::Data) -> (r: Result<Vec<u8>, mustache::Error>)
    requires
        data_flat(*d),
        renderable(t.source()),
    ensures
        r is Ok,
        r->Ok_0@ == rendering(t.source(), data_entries(*d)),
{
    let mut buffer: Vec<u8> = Vec::new();
    match t.inner.render_data(&mut buffer, d) {
        Ok(()) => Ok(buffer),
        Err(e) => Err(e),
    }
}

/// Why an invocation of the engine failed.
#[derive(Clone, Copy, Debug, PartialEq, Eq, Structural)]
pub enum TemplateError {
    /// The template text violates the template grammar, or asks for
    /// what the library's compiler does not take on: a partial file or
    /// a delimiter change, whose compilation would read the filesystem.
    Compile,
    /// The template falls outside what the engine is guaranteed to
    /// render: it carries a tag with the implicit `.` name, which would
    /// make the engine abort.
    Render,
}

/// Compiles template text into a template ready to be rendered.
///
/// A plain template is compiled and succeeds exactly when the engine
/// accepts the text. A text that is not plain is refused without
/// consulting the engine: compiling it would read partial files or
/// re-lex under foreign delimiters, and the library performs no I/O.
/// A failure is always a compilation error.
pub fn compile(text: &str) -> (r: Result<CompiledTemplate, TemplateError>)
    ensures
        plain_template(text@) ==> (r is Ok <==> compiles(text@)),
        !plain_template(text@) ==> r is Err,
        r matches Ok(t) ==> t.source() == text@,
        r matches Err(e) ==> e == TemplateError::Compile,
{
    if scan_open_sigil(text, '>') || scan_open_sigil(text, '=') {
        return Err(TemplateError::Compile);
    }
    match mustache_compile(text) {
        Ok(inner) => Ok(CompiledTemplate { inner, source_text: text.to_owned() }),
        Err(_) => Err(TemplateError::Compile),
    }
}

} // verus!
