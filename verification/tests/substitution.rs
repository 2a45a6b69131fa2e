use commit_form::commit::{get_lines, join, render_commit_message, render_context, update_commit};
use commit_form::form::FormState;
use commit_form::schema::{field_name, COMMIT_TEMPLATE, FIELDS_PER_PAGE, PAGE_COUNT};
use commit_form::template::{names_unambiguous, substitute, template_fully_covered, RenderContext};

fn ctx(pairs: &[(&str, &str)]) -> RenderContext {
    let mut c = RenderContext::new();
    for (n, v) in pairs {
        c.push_pair(n.to_string(), v.to_string());
    }
    c
}

#[test]
fn placeholder_is_replaced_by_the_field_value() {
    let c = ctx(&[("title", "X")]);
    assert_eq!(substitute("# %title%!", &c), "# X!");
}

#[test]
fn every_occurrence_is_substituted() {
    let c = ctx(&[("a", "y")]);
    assert_eq!(substitute("%a% and %a% and %a%", &c), "y and y and y");
}

#[test]
fn unknown_placeholders_stay_literal() {
    let c = ctx(&[("a", "y")]);
    assert_eq!(substitute("%b% %a%", &c), "%b% y");
}

#[test]
fn empty_and_multi_line_values_are_substituted() {
    let c = ctx(&[("a", ""), ("b", "one\ntwo")]);
    assert_eq!(substitute("<%a%><%b%>", &c), "<><one\ntwo>");
}

#[test]
fn substitution_handles_lone_delimiters() {
    let c = ctx(&[("a", "y")]);
    assert_eq!(substitute("100% %a% 100%", &c), "100% y 100%");
    assert_eq!(substitute("%", &c), "%");
    assert_eq!(substitute("", &c), "");
}

#[test]
fn join_flattens_lines_with_newlines() {
    assert_eq!(join(&Vec::new()), "");
    assert_eq!(join(&vec!["a".to_string()]), "a");
    assert_eq!(join(&vec!["a".to_string(), "b".to_string(), "c".to_string()]), "a\nb\nc");
    assert_eq!(join(&vec!["".to_string(), "".to_string()]), "\n");
}

#[test]
fn get_lines_flattens_one_field() {
    let mut form = FormState::new();
    form.edit(vec!["one".to_string(), "two".to_string()]);
    assert_eq!(get_lines(&form, 0, 0), "one\ntwo");
    assert_eq!(get_lines(&form, 0, 1), "");
}

#[test]
fn update_commit_snapshots_every_field() {
    let mut form = FormState::new();
    form.edit(vec!["the title".to_string()]);
    for _ in 0..8 {
        form.next_page();
    }
    form.next_field();
    form.edit(vec!["why".to_string()]);
    let c = update_commit(&form);
    assert_eq!(c.title, "the title");
    assert_eq!(c.next_motivation, "why");
    assert_eq!(c.description, "");
    assert_eq!(c.notes, "");
}

#[test]
fn rendered_message_holds_the_values_and_no_known_token() {
    let mut form = FormState::new();
    form.edit(vec!["Fix crash".to_string()]);
    form.next_field();
    form.edit(vec!["details".to_string()]);
    let msg = render_commit_message(&form);
    assert!(msg.starts_with("# Fix crash\n"));
    assert!(msg.contains("details"));
    for p in 0..PAGE_COUNT {
        for f in 0..FIELDS_PER_PAGE {
            let token = format!("%{}%", field_name(p, f));
            if field_name(p, f) == "packages" {
                // the template carries no placeholder for this field
                assert!(!COMMIT_TEMPLATE.contains(&token));
            } else {
                assert!(COMMIT_TEMPLATE.contains(&token));
            }
            assert!(!msg.contains(&token));
        }
    }
}

#[test]
fn the_commit_template_is_fully_covered_by_the_field_set() {
    let form = FormState::new();
    let snapshot = render_context(&form);
    // every delimiter of the shipped template belongs to a field's
    // placeholder, so substitution leaves no token behind
    assert!(template_fully_covered(COMMIT_TEMPLATE, &snapshot));
    // and the check is not trivially true
    assert!(!template_fully_covered("50% done", &snapshot));
    assert!(!template_fully_covered("%title% and %unknown%", &snapshot));
    assert!(template_fully_covered("%title% and text", &snapshot));
}

#[test]
fn the_field_names_are_unambiguous() {
    let snapshot = render_context(&FormState::new());
    assert!(names_unambiguous(&snapshot));
    let mut duplicated = RenderContext::new();
    duplicated.push_pair("a".to_string(), "1".to_string());
    duplicated.push_pair("a".to_string(), "2".to_string());
    assert!(!names_unambiguous(&duplicated));
    let mut delimited = RenderContext::new();
    delimited.push_pair("a%b".to_string(), "1".to_string());
    assert!(!names_unambiguous(&delimited));
}

#[test]
fn rendering_an_empty_form_keeps_the_section_headings() {
    let form = FormState::new();
    let msg = render_commit_message(&form);
    assert!(msg.contains("### Steps to reproduce"));
    assert!(msg.contains("## Security"));
    assert!(!msg.contains("%title%"));
    assert!(!msg.contains('%'));
}
