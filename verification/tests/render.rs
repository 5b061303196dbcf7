use envrender::context::Context;
use envrender::engine::TemplateError;
use envrender::engine::compile;
use envrender::invocation::Invocation;
use envrender::invocation::OutputSink;
use envrender::invocation::TemplateSource;
use envrender::pipeline::render;
use envrender::pipeline::render_template;

fn ctx_of(pairs: &[(&str, &str)]) -> Context {
    let owned: Vec<(String, String)> = pairs
        .iter()
        .map(|(k, v)| (k.to_string(), v.to_string()))
        .collect();
    Context::from_pairs(owned)
}

#[test]
fn unescaped_variable_is_value() {
    let ctx = ctx_of(&[("FOO", "bar")]);
    let out = render_template("{{{ FOO }}}", &ctx).unwrap();
    assert_eq!(out, b"bar".to_vec());
}

#[test]
fn surrounding_text_is_kept() {
    let ctx = ctx_of(&[("FOO", "bar")]);
    let out = render_template("x{{{ FOO }}}y", &ctx).unwrap();
    assert_eq!(out, b"xbary".to_vec());
}

#[test]
fn escaped_variable_is_html_escaped() {
    let ctx = ctx_of(&[("FOO", "a&b")]);
    let out = render_template("{{ FOO }}", &ctx).unwrap();
    assert_eq!(out, b"a&amp;b".to_vec());
}

#[test]
fn missing_variable_renders_empty() {
    let ctx = ctx_of(&[]);
    let out = render_template("{{{ FOO }}}", &ctx).unwrap();
    assert_eq!(out, b"".to_vec());
}

#[test]
fn unterminated_tag_fails_compilation() {
    let ctx = ctx_of(&[("FOO", "bar")]);
    let r = render_template("{{{", &ctx);
    assert_eq!(r, Err(TemplateError::Compile));
}

#[test]
fn implicit_tag_is_refused() {
    let ctx = ctx_of(&[("FOO", "bar")]);
    assert_eq!(render_template("{{.}}", &ctx), Err(TemplateError::Render));
    assert_eq!(render_template("{{ . }}", &ctx), Err(TemplateError::Render));
    assert_eq!(render_template("{{{.}}}", &ctx), Err(TemplateError::Render));
    assert_eq!(render_template("{{&.}}", &ctx), Err(TemplateError::Render));
    assert_eq!(render_template("{{#.}}x{{/.}}", &ctx), Err(TemplateError::Render));
}

#[test]
fn partial_tag_is_refused() {
    let ctx = ctx_of(&[("FOO", "bar")]);
    assert_eq!(render_template("{{> other}}", &ctx), Err(TemplateError::Compile));
}

#[test]
fn delimiter_change_is_refused() {
    let ctx = ctx_of(&[("FOO", "bar")]);
    assert_eq!(
        render_template("{{=< >=}}<FOO>", &ctx),
        Err(TemplateError::Compile)
    );
}

#[test]
fn dotted_name_renders_empty() {
    let ctx = ctx_of(&[("a", "x")]);
    assert_eq!(render_template("{{a.b}}", &ctx), Ok(b"".to_vec()));
}

#[test]
fn comment_with_dot_is_ignored() {
    let ctx = ctx_of(&[("FOO", "bar")]);
    assert_eq!(render_template("a{{! see notes. }}b", &ctx), Ok(b"ab".to_vec()));
}

#[test]
fn renderable_guard_decides() {
    assert!(envrender::engine::is_renderable("{{{ FOO }}} and a. dot outside"));
    assert!(envrender::engine::is_renderable("{{a.b}} {{! note. }}"));
    assert!(envrender::engine::is_renderable("{{ .leading }} {{trailing.}}"));
    assert!(!envrender::engine::is_renderable("{{.}}"));
    assert!(!envrender::engine::is_renderable("{{ .\t}}"));
    assert!(!envrender::engine::is_renderable("{{{ . }}}"));
    assert!(!envrender::engine::is_renderable("{{^.}}"));
    assert!(!envrender::engine::is_renderable("{{> other}}"));
    assert!(!envrender::engine::is_renderable("{{=< >=}}"));
}

#[test]
fn compile_then_render_matches_one_shot() {
    let ctx = ctx_of(&[("FOO", "bar")]);
    let template = compile("{{{ FOO }}}").unwrap();
    let two_step = render(&template, &ctx).unwrap();
    let one_shot = render_template("{{{ FOO }}}", &ctx).unwrap();
    assert_eq!(two_step, one_shot);
    assert_eq!(two_step, b"bar".to_vec());
}

#[test]
fn rerun_is_byte_identical() {
    let ctx = ctx_of(&[("FOO", "bar"), ("BAZ", "qux")]);
    let first = render_template("{{{ FOO }}}-{{{ BAZ }}}", &ctx).unwrap();
    let again = render_template("{{{ FOO }}}-{{{ BAZ }}}", &ctx).unwrap();
    assert_eq!(first, again);
    assert_eq!(first, b"bar-qux".to_vec());
}

#[test]
fn snapshot_order_of_distinct_keys_is_irrelevant() {
    let one_way = ctx_of(&[("FOO", "bar"), ("BAZ", "qux")]);
    let other_way = ctx_of(&[("BAZ", "qux"), ("FOO", "bar")]);
    let here = render_template("{{{ FOO }}}-{{{ BAZ }}}", &one_way).unwrap();
    let there = render_template("{{{ FOO }}}-{{{ BAZ }}}", &other_way).unwrap();
    assert_eq!(here, there);
}

#[test]
fn later_pair_overwrites_earlier() {
    let ctx = ctx_of(&[("FOO", "old"), ("FOO", "new")]);
    let out = render_template("{{{ FOO }}}", &ctx).unwrap();
    assert_eq!(out, b"new".to_vec());
}

#[test]
fn context_lookup_finds_last_value() {
    let ctx = ctx_of(&[("FOO", "old"), ("FOO", "new"), ("BAR", "x")]);
    assert_eq!(ctx.get(&"FOO".to_string()).map(String::as_str), Some("new"));
    assert_eq!(ctx.get(&"BAR".to_string()).map(String::as_str), Some("x"));
    assert_eq!(ctx.get(&"MISSING".to_string()), None);
}

#[test]
fn dash_means_standard_streams() {
    assert!(matches!(
        TemplateSource::from_spec("-".to_string()),
        TemplateSource::Stdin
    ));
    assert!(matches!(
        OutputSink::from_spec("-".to_string()),
        OutputSink::Stdout
    ));
}

#[test]
fn other_specifiers_are_file_paths() {
    match TemplateSource::from_spec("in.mustache".to_string()) {
        TemplateSource::File(p) => assert_eq!(p, "in.mustache"),
        TemplateSource::Stdin => panic!("a path must not mean standard input"),
    }
    match OutputSink::from_spec("out.txt".to_string()) {
        OutputSink::File(p) => assert_eq!(p, "out.txt"),
        OutputSink::Stdout => panic!("a path must not mean standard output"),
    }
}

#[test]
fn invocation_collects_all_three_arguments() {
    let inv = Invocation::new(true, "-".to_string(), "out.txt".to_string());
    assert!(inv.use_dotenv);
    assert!(matches!(inv.template, TemplateSource::Stdin));
    match inv.output {
        OutputSink::File(p) => assert_eq!(p, "out.txt"),
        OutputSink::Stdout => panic!("a path must not mean standard output"),
    }
}
