use zeroos::{render, Context};

#[test]
fn if_true_emits_then_branch() {
    let ctx = Context::new().with_bool("backtrace", true);
    let s = "a{% if backtrace %}b{% else %}c{% endif %}d";
    assert_eq!(render(s, &ctx).unwrap(), "abd");
}

#[test]
fn if_false_emits_else_branch() {
    let ctx = Context::new().with_bool("backtrace", false);
    let s = "a{% if backtrace %}b{% else %}c{% endif %}d";
    assert_eq!(render(s, &ctx).unwrap(), "acd");
}

#[test]
fn if_without_else() {
    let ctx = Context::new().with_bool("x", false);
    let s = "a{% if x %}b{% endif %}c";
    assert_eq!(render(s, &ctx).unwrap(), "ac");
}

#[test]
fn nesting_works() {
    let ctx = Context::new().with_bool("a", true).with_bool("b", false);
    let s = "{% if a %}A{% if b %}B{% else %}C{% endif %}D{% endif %}";
    assert_eq!(render(s, &ctx).unwrap(), "ACD");
}

#[test]
fn unknown_identifier_errors() {
    let ctx = Context::new();
    let err = render("{% if nope %}x{% endif %}", &ctx).unwrap_err();
    assert!(err.message.contains("Unknown boolean identifier"));
}

#[test]
fn string_interpolation() {
    let ctx = Context::new().with_str("MEMORY_ORIGIN", "0x80000000");
    let s = "ORIGIN={{ MEMORY_ORIGIN }}";
    assert_eq!(render(s, &ctx).unwrap(), "ORIGIN=0x80000000");
}

#[test]
fn plain_template_renders_to_itself() {
    let ctx = Context::new();
    assert_eq!(render("no tags here", &ctx).unwrap(), "no tags here");
    assert_eq!(render("", &ctx).unwrap(), "");
}

#[test]
fn unknown_string_identifier_errors() {
    let ctx = Context::new();
    let err = render("{{ missing }}", &ctx).unwrap_err();
    assert!(err.message.contains("Unknown string identifier"));
}

#[test]
fn suppressed_branch_skips_interpolation() {
    let ctx = Context::new().with_bool("x", false);
    assert_eq!(render("{% if x %}{{ missing }}{% endif %}ok", &ctx).unwrap(), "ok");
}

#[test]
fn unclosed_tag_errors() {
    let ctx = Context::new();
    let err = render("a{% if x ", &ctx).unwrap_err();
    assert!(err.message.contains("Unclosed template tag"));
    assert_eq!(err.byte_offset, 1);
}

#[test]
fn unclosed_block_errors() {
    let ctx = Context::new().with_bool("x", true);
    let err = render("{% if x %}a", &ctx).unwrap_err();
    assert!(err.message.contains("Unclosed {% if %}"));
}

#[test]
fn else_without_if_errors() {
    let ctx = Context::new();
    let err = render("{% else %}", &ctx).unwrap_err();
    assert!(err.message.contains("without matching"));
}

#[test]
fn duplicate_else_errors() {
    let ctx = Context::new().with_bool("x", true);
    let err = render("{% if x %}a{% else %}b{% else %}c{% endif %}", &ctx).unwrap_err();
    assert!(err.message.contains("Duplicate"));
}

#[test]
fn unknown_tag_errors() {
    let ctx = Context::new();
    let err = render("{% for x %}", &ctx).unwrap_err();
    assert!(err.message.contains("Unknown template tag"));
}

#[test]
fn later_registration_shadows_earlier() {
    let ctx = Context::new().with_str("K", "one").with_str("K", "two");
    assert_eq!(render("{{ K }}", &ctx).unwrap(), "two");
    let mut ctx2 = Context::new();
    ctx2.insert_bool("b", false);
    ctx2.insert_bool("b", true);
    assert_eq!(render("{% if b %}y{% endif %}", &ctx2).unwrap(), "y");
}
