//! The form schema: the fixed, ordered set of pages, the four fields of
//! each page, and the literal commit template the filled form is rendered
//! against.
//!
//! Every field carries a stable semantic name; the template names a field
//! by writing that name between `%` delimiters.

use vstd::prelude::*;

verus! {

/// Number of pages of the form.
pub const PAGE_COUNT: usize = 9;

/// Number of fields on each page.
pub const FIELDS_PER_PAGE: usize = 4;

/// The literal commit template, with one `%name%` placeholder per field.
pub const COMMIT_TEMPLATE: &'static str = "# %title%

%description%

### Steps to reproduce

%steps%

### Expected behavior

%expected_description%

## Resolution

Explains the state of the system before and after the changes

### Before

%system_before%

### After

%system_after%

### Expectation

%expectation%

### Samples

%samples%

## Security

The security section discusses any security-related impacts that may arise from the newly added authentication system

### Vulnerabilities

%vulnerabilities%

### Quality

%qualities%

### Conformity

%conformity%

### Risk

%risk%

## Tests

### Added

%tests_added%

### Updated

%tests_updated%

### Deleted

%test_deleted%

### Platforms

%tested_platforms%

## Requirements

### BREAKING CHANGES

%breaking_changes%

### Dependencies

%dependencies%

### Rollback

%rollbacks%

## Database

### Up

%db_up%

### Down

%db_down%

### Changes

%db_changes%

### Why

%why_db_changes%

## Communication

### Authors

%authors%

### Testers

%testers%

### Comments

%comments%

### Notes

%notes%

## Ideas

### News headline

%news_headline%

### Workflow

%workflow%

### Examples

%workflows_samples%

### Technical considerations

%technical_considerations%

## Next

### Description

%next_description%

### Motivation

%next_motivation%

### Why implement it

%next_reasons%

### Related Links

%next_links%

";

/// The semantic name of the field at `(p, f)`: the name its placeholder
/// carries in the template.
pub open spec fn spec_field_name(p: int, f: int) -> Seq<char> {
    if p == 0 {
        if f == 0 {
            "title"@
        } else if f == 1 {
            "description"@
        } else if f == 2 {
            "steps"@
        } else {
            "expected_description"@
        }
    } else if p == 1 {
        if f == 0 {
            "system_before"@
        } else if f == 1 {
            "system_after"@
        } else if f == 2 {
            "expectation"@
        } else {
            "samples"@
        }
    } else if p == 2 {
        if f == 0 {
            "vulnerabilities"@
        } else if f == 1 {
            "qualities"@
        } else if f == 2 {
            "conformity"@
        } else {
            "risk"@
        }
    } else if p == 3 {
        if f == 0 {
            "tests_added"@
        } else if f == 1 {
            "tests_updated"@
        } else if f == 2 {
            "test_deleted"@
        } else {
            "tested_platforms"@
        }
    } else if p == 4 {
        if f == 0 {
            "breaking_changes"@
        } else if f == 1 {
            "dependencies"@
        } else if f == 2 {
            "packages"@
        } else {
            "rollbacks"@
        }
    } else if p == 5 {
        if f == 0 {
            "db_up"@
        } else if f == 1 {
            "db_down"@
        } else if f == 2 {
            "db_changes"@
        } else {
            "why_db_changes"@
        }
    } else if p == 6 {
        if f == 0 {
            "authors"@
        } else if f == 1 {
            "testers"@
        } else if f == 2 {
            "comments"@
        } else {
            "notes"@
        }
    } else if p == 7 {
        if f == 0 {
            "news_headline"@
        } else if f == 1 {
            "workflow"@
        } else if f == 2 {
            "workflows_samples"@
        } else {
            "technical_considerations"@
        }
    } else {
        if f == 0 {
            "next_description"@
        } else if f == 1 {
            "next_motivation"@
        } else if f == 2 {
            "next_reasons"@
        } else {
            "next_links"@
        }
    }
}

/// The semantic name of the field at `(p, f)`.
pub fn field_name(p: usize, f: usize) -> (r: &'static str)
    requires
        p < PAGE_COUNT,
        f < FIELDS_PER_PAGE,
    ensures
        r@ == spec_field_name(p as int, f as int),
{
    if p == 0 {
        if f == 0 {
            "title"
        } else if f == 1 {
            "description"
        } else if f == 2 {
            "steps"
        } else {
            "expected_description"
        }
    } else if p == 1 {
        if f == 0 {
            "system_before"
        } else if f == 1 {
            "system_after"
        } else if f == 2 {
            "expectation"
        } else {
            "samples"
        }
    } else if p == 2 {
        if f == 0 {
            "vulnerabilities"
        } else if f == 1 {
            "qualities"
        } else if f == 2 {
            "conformity"
        } else {
            "risk"
        }
    } else if p == 3 {
        if f == 0 {
            "tests_added"
        } else if f == 1 {
            "tests_updated"
        } else if f == 2 {
            "test_deleted"
        } else {
            "tested_platforms"
        }
    } else if p == 4 {
        if f == 0 {
            "breaking_changes"
        } else if f == 1 {
            "dependencies"
        } else if f == 2 {
            "packages"
        } else {
            "rollbacks"
        }
    } else if p == 5 {
        if f == 0 {
            "db_up"
        } else if f == 1 {
            "db_down"
        } else if f == 2 {
            "db_changes"
        } else {
            "why_db_changes"
        }
    } else if p == 6 {
        if f == 0 {
            "authors"
        } else if f == 1 {
            "testers"
        } else if f == 2 {
            "comments"
        } else {
            "notes"
        }
    } else if p == 7 {
        if f == 0 {
            "news_headline"
        } else if f == 1 {
            "workflow"
        } else if f == 2 {
            "workflows_samples"
        } else {
            "technical_considerations"
        }
    } else {
        if f == 0 {
            "next_description"
        } else if f == 1 {
            "next_motivation"
        } else if f == 2 {
            "next_reasons"
        } else {
            "next_links"
        }
    }
}

/// The display title of page `p`.
pub open spec fn spec_page_title(p: int) -> Seq<char> {
    if p == 0 {
        "Problematic"@
    } else if p == 1 {
        "Resolution"@
    } else if p == 2 {
        "Security"@
    } else if p == 3 {
        "Tests"@
    } else if p == 4 {
        "Requirements"@
    } else if p == 5 {
        "Database"@
    } else if p == 6 {
        "Communication"@
    } else if p == 7 {
        "Ideas"@
    } else {
        "Next"@
    }
}

/// The display title of page `p`.
pub fn page_title(p: usize) -> (r: &'static str)
    requires
        p < PAGE_COUNT,
    ensures
        r@ == spec_page_title(p as int),
{
    if p == 0 {
        "Problematic"
    } else if p == 1 {
        "Resolution"
    } else if p == 2 {
        "Security"
    } else if p == 3 {
        "Tests"
    } else if p == 4 {
        "Requirements"
    } else if p == 5 {
        "Database"
    } else if p == 6 {
        "Communication"
    } else if p == 7 {
        "Ideas"
    } else {
        "Next"
    }
}

/// The position indicator drawn under page `p`: the previous page, the
/// ordinal, and the next page.
pub open spec fn spec_page_indicator(p: int) -> Seq<char> {
    if p == 0 {
        " /dev/null <== page 1/9 ==> Resolution "@
    } else if p == 1 {
        " Problematics <== page 2/9 ==> Security "@
    } else if p == 2 {
        " Resolution <== page 3/9 ==> Tests "@
    } else if p == 3 {
        " Security <== page 4/9 ==> Requirements "@
    } else if p == 4 {
        " Tests <== page 5/9 ==> Database "@
    } else if p == 5 {
        " Requirements <== page 6/9 ==> Communication "@
    } else if p == 6 {
        " Database <== page 7/9 ==> Ideas "@
    } else if p == 7 {
        " Communication <== page 8/9 ==> Next "@
    } else {
        " Ideas <== page 9/9 ==> /dev/null "@
    }
}

/// The position indicator drawn under page `p`.
pub fn page_indicator(p: usize) -> (r: &'static str)
    requires
        p < PAGE_COUNT,
    ensures
        r@ == spec_page_indicator(p as int),
{
    if p == 0 {
        " /dev/null <== page 1/9 ==> Resolution "
    } else if p == 1 {
        " Problematics <== page 2/9 ==> Security "
    } else if p == 2 {
        " Resolution <== page 3/9 ==> Tests "
    } else if p == 3 {
        " Security <== page 4/9 ==> Requirements "
    } else if p == 4 {
        " Tests <== page 5/9 ==> Database "
    } else if p == 5 {
        " Requirements <== page 6/9 ==> Communication "
    } else if p == 6 {
        " Database <== page 7/9 ==> Ideas "
    } else if p == 7 {
        " Communication <== page 8/9 ==> Next "
    } else {
        " Ideas <== page 9/9 ==> /dev/null "
    }
}

/// The display title of the field at `(p, f)`.
pub open spec fn spec_field_title(p: int, f: int) -> Seq<char> {
    if p == 0 {
        if f == 0 {
            "Title"@
        } else if f == 1 {
            "Description"@
        } else if f == 2 {
            "Steps to reproduce"@
        } else {
            "Expectation"@
        }
    } else if p == 1 {
        if f == 0 {
            "Before"@
        } else if f == 1 {
            "After"@
        } else if f == 2 {
            "Results"@
        } else {
            "Samples"@
        }
    } else if p == 2 {
        if f == 0 {
            "Vulnerability"@
        } else if f == 1 {
            "Quality"@
        } else if f == 2 {
            "Conformity"@
        } else {
            "Risk"@
        }
    } else if p == 3 {
        if f == 0 {
            "Added"@
        } else if f == 1 {
            "Updated"@
        } else if f == 2 {
            "Deleted"@
        } else {
            "Platforms"@
        }
    } else if p == 4 {
        if f == 0 {
            "Breaking changes"@
        } else if f == 1 {
            "New needed dependencies"@
        } else if f == 2 {
            "New packages needed"@
        } else {
            "Rollback"@
        }
    } else if p == 5 {
        if f == 0 {
            "Up"@
        } else if f == 1 {
            "Down"@
        } else if f == 2 {
            "Changes"@
        } else {
            "Why"@
        }
    } else if p == 6 {
        if f == 0 {
            "Authors"@
        } else if f == 1 {
            "Testers"@
        } else if f == 2 {
            "Comments"@
        } else {
            "Notes"@
        }
    } else if p == 7 {
        if f == 0 {
            "News headline"@
        } else if f == 1 {
            "Workflow samples"@
        } else if f == 2 {
            "Examples"@
        } else {
            "Technical considerations"@
        }
    } else {
        if f == 0 {
            "To Implement"@
        } else if f == 1 {
            "Motivation"@
        } else if f == 2 {
            "Implementation Plan"@
        } else {
            "Related links"@
        }
    }
}

/// The display title of the field at `(p, f)`.
pub fn field_title(p: usize, f: usize) -> (r: &'static str)
    requires
        p < PAGE_COUNT,
        f < FIELDS_PER_PAGE,
    ensures
        r@ == spec_field_title(p as int, f as int),
{
    if p == 0 {
        if f == 0 {
            "Title"
        } else if f == 1 {
            "Description"
        } else if f == 2 {
            "Steps to reproduce"
        } else {
            "Expectation"
        }
    } else if p == 1 {
        if f == 0 {
            "Before"
        } else if f == 1 {
            "After"
        } else if f == 2 {
            "Results"
        } else {
            "Samples"
        }
    } else if p == 2 {
        if f == 0 {
            "Vulnerability"
        } else if f == 1 {
            "Quality"
        } else if f == 2 {
            "Conformity"
        } else {
            "Risk"
        }
    } else if p == 3 {
        if f == 0 {
            "Added"
        } else if f == 1 {
            "Updated"
        } else if f == 2 {
            "Deleted"
        } else {
            "Platforms"
        }
    } else if p == 4 {
        if f == 0 {
            "Breaking changes"
        } else if f == 1 {
            "New needed dependencies"
        } else if f == 2 {
            "New packages needed"
        } else {
            "Rollback"
        }
    } else if p == 5 {
        if f == 0 {
            "Up"
        } else if f == 1 {
            "Down"
        } else if f == 2 {
            "Changes"
        } else {
            "Why"
        }
    } else if p == 6 {
        if f == 0 {
            "Authors"
        } else if f == 1 {
            "Testers"
        } else if f == 2 {
            "Comments"
        } else {
            "Notes"
        }
    } else if p == 7 {
        if f == 0 {
            "News headline"
        } else if f == 1 {
            "Workflow samples"
        } else if f == 2 {
            "Examples"
        } else {
            "Technical considerations"
        }
    } else {
        if f == 0 {
            "To Implement"
        } else if f == 1 {
            "Motivation"
        } else if f == 2 {
            "Implementation Plan"
        } else {
            "Related links"
        }
    }
}

/// The one-line helper text of the field at `(p, f)`.
pub open spec fn spec_field_describe(p: int, f: int) -> Seq<char> {
    if p == 0 {
        if f == 0 {
            "Indicate the problem title"@
        } else if f == 1 {
            "Describe the problem in detail"@
        } else if f == 2 {
            "Indicate the steps necessary to reproduce the problem"@
        } else {
            "Describe the expected behavior"@
        }
    } else if p == 1 {
        if f == 0 {
            "Describe the state before the implementation of the resolution"@
        } else if f == 1 {
            "Describe the state after the implementation of the resolution"@
        } else if f == 2 {
            "Describe the results obtained after the implementation"@
        } else {
            "Give examples of the use of the resolution"@
        }
    } else if p == 2 {
        if f == 0 {
            "Describe potential security vulnerabilities"@
        } else if f == 1 {
            "Describe the quality aspects of the code and the solution"@
        } else if f == 2 {
            "Indicate the security and conformity standards met"@
        } else {
            "Describe potential security risks"@
        }
    } else if p == 3 {
        if f == 0 {
            "Describe the new tests added"@
        } else if f == 1 {
            "Describe the updated tests"@
        } else if f == 2 {
            "Describe the deleted tests"@
        } else {
            "Indicate the platforms on which the tests were carried out"@
        }
    } else if p == 4 {
        if f == 0 {
            "Indicate if the code have a breaking changes"@
        } else if f == 1 {
            "Indicate the new needed dependencies"@
        } else if f == 2 {
            "Indicate the new needed packages name's"@
        } else {
            "Describe the rollback process in case of a problem"@
        }
    } else if p == 5 {
        if f == 0 {
            "What's it's created on up"@
        } else if f == 1 {
            "What's it's removed on down"@
        } else if f == 2 {
            "Describe the migrations results"@
        } else {
            "Describe the reason of the update"@
        }
    } else if p == 6 {
        if f == 0 {
            "Authors name's"@
        } else if f == 1 {
            "Indicate the project testers"@
        } else if f == 2 {
            "Indicate comments and feedback"@
        } else {
            "Indicate important remarks and observations"@
        }
    } else if p == 7 {
        if f == 0 {
            "News headline and brief description"@
        } else if f == 1 {
            "Workflow steps and user interactions"@
        } else if f == 2 {
            "Code examples or visual mockups"@
        } else {
            "Technical considerations"@
        }
    } else {
        if f == 0 {
            "Description of the feature"@
        } else if f == 1 {
            "Reasons for implementing this feature"@
        } else if f == 2 {
            "Technical approach and steps involved"@
        } else {
            "Links to relevant resources"@
        }
    }
}

/// The one-line helper text of the field at `(p, f)`.
pub fn field_describe(p: usize, f: usize) -> (r: &'static str)
    requires
        p < PAGE_COUNT,
        f < FIELDS_PER_PAGE,
    ensures
        r@ == spec_field_describe(p as int, f as int),
{
    if p == 0 {
        if f == 0 {
            "Indicate the problem title"
        } else if f == 1 {
            "Describe the problem in detail"
        } else if f == 2 {
            "Indicate the steps necessary to reproduce the problem"
        } else {
            "Describe the expected behavior"
        }
    } else if p == 1 {
        if f == 0 {
            "Describe the state before the implementation of the resolution"
        } else if f == 1 {
            "Describe the state after the implementation of the resolution"
        } else if f == 2 {
            "Describe the results obtained after the implementation"
        } else {
            "Give examples of the use of the resolution"
        }
    } else if p == 2 {
        if f == 0 {
            "Describe potential security vulnerabilities"
        } else if f == 1 {
            "Describe the quality aspects of the code and the solution"
        } else if f == 2 {
            "Indicate the security and conformity standards met"
        } else {
            "Describe potential security risks"
        }
    } else if p == 3 {
        if f == 0 {
            "Describe the new tests added"
        } else if f == 1 {
            "Describe the updated tests"
        } else if f == 2 {
            "Describe the deleted tests"
        } else {
            "Indicate the platforms on which the tests were carried out"
        }
    } else if p == 4 {
        if f == 0 {
            "Indicate if the code have a breaking changes"
        } else if f == 1 {
            "Indicate the new needed dependencies"
        } else if f == 2 {
            "Indicate the new needed packages name's"
        } else {
            "Describe the rollback process in case of a problem"
        }
    } else if p == 5 {
        if f == 0 {
            "What's it's created on up"
        } else if f == 1 {
            "What's it's removed on down"
        } else if f == 2 {
            "Describe the migrations results"
        } else {
            "Describe the reason of the update"
        }
    } else if p == 6 {
        if f == 0 {
            "Authors name's"
        } else if f == 1 {
            "Indicate the project testers"
        } else if f == 2 {
            "Indicate comments and feedback"
        } else {
            "Indicate important remarks and observations"
        }
    } else if p == 7 {
        if f == 0 {
            "News headline and brief description"
        } else if f == 1 {
            "Workflow steps and user interactions"
        } else if f == 2 {
            "Code examples or visual mockups"
        } else {
            "Technical considerations"
        }
    } else {
        if f == 0 {
            "Description of the feature"
        } else if f == 1 {
            "Reasons for implementing this feature"
        } else if f == 2 {
            "Technical approach and steps involved"
        } else {
            "Links to relevant resources"
        }
    }
}

} // verus!
