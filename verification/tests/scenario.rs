use commit_form::form::{Action, Command, FormState};
use commit_form::commit::render_commit_message;
use commit_form::quality::QualityClass;
use commit_form::schema::{page_indicator, page_title, FIELDS_PER_PAGE, PAGE_COUNT};
use commit_form::App;

#[test]
fn compose_submit_and_reset() {
    let _app = App::new();
    let mut form = FormState::new();

    // title
    assert_eq!(form.step(Command::Edit(vec!["Fix crash".to_string()])), Action::Continue);
    // description: thirty lines of exactly twenty-five characters
    assert_eq!(form.step(Command::NextField), Action::Continue);
    let body: Vec<String> = (0..30).map(|_| "x".repeat(25)).collect();
    assert_eq!(form.step(Command::Edit(body)), Action::Continue);
    assert_eq!(form.field_quality(0, 1), QualityClass::Good);

    // submit: the rendered message carries the title in place of its
    // placeholder, and a successful dispatch resets the whole form
    assert_eq!(form.step(Command::Submit), Action::SubmitRequested);
    let message = render_commit_message(&form);
    assert!(message.starts_with("# Fix crash\n"));
    assert!(message.contains(&"x".repeat(25)));
    assert!(!message.contains("%title%"));

    form.apply_dispatch_result(true);
    assert_eq!(form.page(), 0);
    assert_eq!(form.field_index(), 0);
    for p in 0..PAGE_COUNT {
        for f in 0..FIELDS_PER_PAGE {
            assert!(form.field_lines(p, f).is_empty());
        }
    }
}

#[test]
fn schema_names_the_pages_in_order() {
    let titles: Vec<&str> = (0..PAGE_COUNT).map(page_title).collect();
    assert_eq!(
        titles,
        vec![
            "Problematic",
            "Resolution",
            "Security",
            "Tests",
            "Requirements",
            "Database",
            "Communication",
            "Ideas",
            "Next"
        ]
    );
}

#[test]
fn indicator_names_the_neighbours() {
    assert_eq!(page_indicator(0), " /dev/null <== page 1/9 ==> Resolution ");
    assert_eq!(page_indicator(2), " Resolution <== page 3/9 ==> Tests ");
    assert_eq!(page_indicator(8), " Ideas <== page 9/9 ==> /dev/null ");
}
