use commit_form::form::{Action, Command, FormState};
use commit_form::quality::QualityClass;
use commit_form::schema::{FIELDS_PER_PAGE, PAGE_COUNT};

fn lines(texts: &[&str]) -> Vec<String> {
    texts.iter().map(|t| t.to_string()).collect()
}

#[test]
fn fresh_form_starts_at_origin_with_empty_fields() {
    let form = FormState::new();
    assert_eq!(form.page(), 0);
    assert_eq!(form.field_index(), 0);
    assert_eq!(form.page_count(), PAGE_COUNT);
    for p in 0..PAGE_COUNT {
        for f in 0..FIELDS_PER_PAGE {
            assert!(form.field_lines(p, f).is_empty());
            assert_eq!(form.field_quality(p, f), QualityClass::Neutral);
        }
    }
}

#[test]
fn prev_moves_are_no_ops_at_the_origin() {
    let mut form = FormState::new();
    form.prev_page();
    assert_eq!(form.page(), 0);
    assert_eq!(form.field_index(), 0);
    form.prev_field();
    assert_eq!(form.page(), 0);
    assert_eq!(form.field_index(), 0);
}

#[test]
fn next_moves_saturate_at_the_last_page_and_field() {
    let mut form = FormState::new();
    for _ in 0..PAGE_COUNT + 3 {
        form.next_page();
    }
    assert_eq!(form.page(), PAGE_COUNT - 1);
    for _ in 0..FIELDS_PER_PAGE + 3 {
        form.next_field();
    }
    assert_eq!(form.field_index(), FIELDS_PER_PAGE - 1);
    form.next_page();
    // even a saturated page move resets the field cursor
    assert_eq!(form.page(), PAGE_COUNT - 1);
    assert_eq!(form.field_index(), 0);
    for _ in 0..FIELDS_PER_PAGE + 3 {
        form.next_field();
    }
    assert_eq!(form.field_index(), FIELDS_PER_PAGE - 1);
}

#[test]
fn page_moves_reset_the_field_cursor() {
    let mut form = FormState::new();
    form.next_field();
    form.next_field();
    assert_eq!(form.field_index(), 2);
    form.next_page();
    assert_eq!(form.page(), 1);
    assert_eq!(form.field_index(), 0);
    form.next_field();
    form.next_field();
    form.next_field();
    assert_eq!(form.field_index(), 3);
    form.prev_page();
    assert_eq!(form.page(), 0);
    assert_eq!(form.field_index(), 0);
}

#[test]
fn field_moves_keep_the_page_and_content() {
    let mut form = FormState::new();
    form.edit(lines(&["kept"]));
    form.next_field();
    form.prev_field();
    assert_eq!(form.page(), 0);
    assert_eq!(form.field_lines(0, 0), &lines(&["kept"]));
}

#[test]
fn edit_targets_the_field_under_the_cursor() {
    let mut form = FormState::new();
    form.next_page();
    form.next_field();
    form.edit(lines(&["alpha", "beta"]));
    assert_eq!(form.field_lines(1, 1), &lines(&["alpha", "beta"]));
    assert!(form.field_lines(0, 0).is_empty());
    assert!(form.field_lines(1, 0).is_empty());
}

#[test]
fn edit_recomputes_the_quality_class() {
    let mut form = FormState::new();
    form.edit(vec!["a".repeat(25)]);
    assert_eq!(form.field_quality(0, 0), QualityClass::Good);
    form.edit(vec!["a".repeat(80)]);
    assert_eq!(form.field_quality(0, 0), QualityClass::Error);
    form.edit(Vec::new());
    assert_eq!(form.field_quality(0, 0), QualityClass::Neutral);
}

#[test]
fn step_dispatches_commands() {
    let mut form = FormState::new();
    assert_eq!(form.step(Command::NextPage), Action::Continue);
    assert_eq!(form.page(), 1);
    assert_eq!(form.step(Command::NextField), Action::Continue);
    assert_eq!(form.field_index(), 1);
    assert_eq!(form.step(Command::PrevField), Action::Continue);
    assert_eq!(form.field_index(), 0);
    assert_eq!(form.step(Command::PrevPage), Action::Continue);
    assert_eq!(form.page(), 0);
    assert_eq!(form.step(Command::Edit(lines(&["text"]))), Action::Continue);
    assert_eq!(form.field_lines(0, 0), &lines(&["text"]));
    assert_eq!(form.step(Command::Submit), Action::SubmitRequested);
    assert_eq!(form.field_lines(0, 0), &lines(&["text"]));
    assert_eq!(form.step(Command::Cancel), Action::Exit);
    assert_eq!(form.field_lines(0, 0), &lines(&["text"]));
}

#[test]
fn failed_dispatch_preserves_every_field() {
    let mut form = FormState::new();
    form.edit(lines(&["first page"]));
    form.next_page();
    form.next_field();
    form.edit(lines(&["second", "page"]));
    form.apply_dispatch_result(false);
    assert_eq!(form.field_lines(0, 0), &lines(&["first page"]));
    assert_eq!(form.field_lines(1, 1), &lines(&["second", "page"]));
    assert_eq!(form.page(), 1);
    assert_eq!(form.field_index(), 1);
}

#[test]
fn successful_dispatch_empties_the_whole_form() {
    let mut form = FormState::new();
    form.edit(lines(&["first page"]));
    form.next_page();
    form.next_field();
    form.edit(lines(&["second", "page"]));
    form.apply_dispatch_result(true);
    assert_eq!(form.page(), 0);
    assert_eq!(form.field_index(), 0);
    for p in 0..PAGE_COUNT {
        for f in 0..FIELDS_PER_PAGE {
            assert!(form.field_lines(p, f).is_empty());
        }
    }
}
