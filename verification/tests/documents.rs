use commit_form::doc_template::{render_doc, render_named, ListContext, RenderError, TemplateStore};

fn lines(texts: &[&str]) -> Vec<String> {
    texts.iter().map(|t| t.to_string()).collect()
}

fn ctx(fields: &[(&str, &[&str])]) -> ListContext {
    let mut c = ListContext::new();
    for (n, v) in fields {
        c.push_field(n.to_string(), lines(v));
    }
    c
}

#[test]
fn iteration_emits_the_lines_in_order() {
    let c = ctx(&[("items", &["a", "b"])]);
    let doc = lines(&["@each items"]);
    assert_eq!(render_doc(&doc, &c), Ok("a\nb\n".to_string()));
}

#[test]
fn literal_lines_pass_through() {
    let c = ctx(&[]);
    let doc = lines(&["first", "", "last"]);
    assert_eq!(render_doc(&doc, &c), Ok("first\n\nlast\n".to_string()));
}

#[test]
fn literal_and_iterated_lines_interleave() {
    let c = ctx(&[("steps", &["one", "two"])]);
    let doc = lines(&["Steps:", "@each steps", "done"]);
    assert_eq!(render_doc(&doc, &c), Ok("Steps:\none\ntwo\ndone\n".to_string()));
}

#[test]
fn conditional_block_follows_the_field_content() {
    let c = ctx(&[("notes", &["something"]), ("empty", &[]), ("blank", &[""])]);
    let shown = lines(&["@if notes", "has notes", "@end"]);
    assert_eq!(render_doc(&shown, &c), Ok("has notes\n".to_string()));
    let hidden = lines(&["@if empty", "has notes", "@end"]);
    assert_eq!(render_doc(&hidden, &c), Ok("".to_string()));
    let blank = lines(&["@if blank", "has notes", "@end", "after"]);
    assert_eq!(render_doc(&blank, &c), Ok("after\n".to_string()));
}

#[test]
fn directives_inside_a_hidden_block_emit_nothing() {
    let c = ctx(&[("empty", &[]), ("items", &["a"])]);
    let doc = lines(&["@if empty", "@each items", "@end"]);
    assert_eq!(render_doc(&doc, &c), Ok("".to_string()));
}

#[test]
fn unknown_field_is_an_undefined_reference() {
    let c = ctx(&[("items", &["a"])]);
    assert_eq!(render_doc(&lines(&["@each missing"]), &c), Err(RenderError::UndefinedReference));
    assert_eq!(render_doc(&lines(&["@if missing", "@end"]), &c), Err(RenderError::UndefinedReference));
}

#[test]
fn malformed_directives_are_syntax_errors() {
    let c = ctx(&[("items", &["a"])]);
    assert_eq!(render_doc(&lines(&["@loop items"]), &c), Err(RenderError::SyntaxError));
    assert_eq!(render_doc(&lines(&["@each"]), &c), Err(RenderError::SyntaxError));
    assert_eq!(render_doc(&lines(&["@end"]), &c), Err(RenderError::SyntaxError));
    assert_eq!(render_doc(&lines(&["@if items", "text"]), &c), Err(RenderError::SyntaxError));
    assert_eq!(
        render_doc(&lines(&["@if items", "@if items", "@end"]), &c),
        Err(RenderError::SyntaxError)
    );
}

#[test]
fn named_rendering_reports_a_missing_template() {
    let c = ctx(&[("items", &["a"])]);
    let mut store = TemplateStore::new();
    store.push_doc("commit".to_string(), lines(&["@each items"]));
    assert_eq!(render_named(&store, "commit", &c), Ok("a\n".to_string()));
    assert_eq!(render_named(&store, "other", &c), Err(RenderError::TemplateNotFound));
}
