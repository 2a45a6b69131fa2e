use commit_form::quality::{
    classify_lines, color_hint, evaluate, field_heading, line_lengths, ColorHint, QualityClass,
};

fn eval(lens: &[usize]) -> QualityClass {
    let v: Vec<usize> = lens.to_vec();
    evaluate(&v)
}

#[test]
fn over_length_line_dominates_short_lines() {
    assert_eq!(eval(&[90, 10]), QualityClass::Error);
    assert_eq!(eval(&[10, 90]), QualityClass::Error);
}

#[test]
fn single_good_line_is_good() {
    assert_eq!(eval(&[25]), QualityClass::Good);
}

#[test]
fn later_bracket_wins_without_error() {
    assert_eq!(eval(&[25, 60]), QualityClass::Warning);
}

#[test]
fn later_good_line_rearms_good_after_over_length() {
    assert_eq!(eval(&[90, 25]), QualityClass::Good);
}

#[test]
fn bracket_bounds() {
    assert_eq!(eval(&[]), QualityClass::Neutral);
    assert_eq!(eval(&[0]), QualityClass::Neutral);
    assert_eq!(eval(&[19]), QualityClass::Neutral);
    assert_eq!(eval(&[20]), QualityClass::Good);
    assert_eq!(eval(&[35]), QualityClass::Good);
    assert_eq!(eval(&[36]), QualityClass::Caution);
    assert_eq!(eval(&[50]), QualityClass::Caution);
    assert_eq!(eval(&[51]), QualityClass::Warning);
    assert_eq!(eval(&[71]), QualityClass::Warning);
    assert_eq!(eval(&[72]), QualityClass::Neutral);
    assert_eq!(eval(&[73]), QualityClass::Error);
}

#[test]
fn caution_precedes_warning_and_good() {
    assert_eq!(eval(&[25, 40, 60]), QualityClass::Caution);
    assert_eq!(eval(&[60, 40]), QualityClass::Caution);
    assert_eq!(eval(&[25, 60, 40]), QualityClass::Caution);
}

#[test]
fn evaluation_is_deterministic() {
    let cases: [&[usize]; 5] = [&[90, 10], &[10, 90], &[25], &[25, 60], &[90, 25]];
    for c in cases {
        assert_eq!(eval(c), eval(c));
    }
}

#[test]
fn lengths_count_characters_per_line() {
    let lines: Vec<String> = vec!["abcde".to_string(), "".to_string(), "xyz".to_string()];
    let lens = line_lengths(&lines);
    assert_eq!(lens, vec![5, 0, 3]);
}

#[test]
fn classify_lines_scans_character_counts() {
    let lines: Vec<String> = vec!["a".repeat(25)];
    assert_eq!(classify_lines(&lines), QualityClass::Good);
    let lines: Vec<String> = vec!["a".repeat(80), "b".repeat(25)];
    assert_eq!(classify_lines(&lines), QualityClass::Good);
    let lines: Vec<String> = vec!["b".repeat(25), "a".repeat(80)];
    assert_eq!(classify_lines(&lines), QualityClass::Error);
}

#[test]
fn color_of_each_class() {
    assert_eq!(color_hint(QualityClass::Neutral), ColorHint::White);
    assert_eq!(color_hint(QualityClass::Good), ColorHint::Green);
    assert_eq!(color_hint(QualityClass::Caution), ColorHint::Yellow);
    assert_eq!(color_hint(QualityClass::Warning), ColorHint::Orange);
    assert_eq!(color_hint(QualityClass::Error), ColorHint::Red);
}

#[test]
fn heading_carries_the_over_length_note_only_on_error() {
    assert_eq!(
        field_heading("Title", QualityClass::Error),
        "Title ( a line is superior to the max lines length )"
    );
    assert_eq!(field_heading("Title", QualityClass::Good), "Title");
    assert_eq!(field_heading("Title", QualityClass::Neutral), "Title");
}
