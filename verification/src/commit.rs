//! The commit snapshot: flattening the form into named values and
//! rendering the commit template against them.
//!
//! Each field's lines are joined with newlines into one flat text; the 36
//! flattened values, one per semantic field name, form the snapshot that
//! the fixed template is substituted against.

use crate::form::{FormModel, FormState};
use crate::schema::{spec_field_name, field_name, COMMIT_TEMPLATE, FIELDS_PER_PAGE, PAGE_COUNT};
use crate::template::{
    contains_placeholder, lemma_no_percent_concat, lemma_substitution_no_token_remains, no_percent,
    subst, substitute, wf_template, RenderContext,
};
use vstd::prelude::*;
use vstd::string::StringExecFns;

verus! {

/// The lines of a field joined into one text, with a newline between
/// consecutive lines.
pub open spec fn join_lines(lines: Seq<Seq<char>>) -> Seq<char>
    decreases lines.len(),
{
    if lines.len() == 0 {
        Seq::empty()
    } else if lines.len() == 1 {
        lines[0]
    } else {
        join_lines(lines.drop_last()) + seq!['\n'] + lines.last()
    }
}

/// Join a field's lines into one text, with a newline between consecutive
/// lines.
pub fn join(lines: &Vec<String>) -> (r: String)
    ensures
        r@ == join_lines(lines.deep_view()),
{
    let ghost dv = lines.deep_view();
    let mut out = String::new();
    let mut i: usize = 0;
    proof {
        assert(dv.take(0) =~= Seq::<Seq<char>>::empty());
    }
    while i < lines.len()
        invariant
            i <= lines.len(),
            dv == lines.deep_view(),
            dv.len() == lines@.len(),
            out@ == join_lines(dv.take(i as int)),
        decreases lines.len() - i,
    {
        let ghost before = out@;
        if i > 0 {
            out.append("\n");
        }
        out.append(lines[i].as_str());
        proof {
            reveal_strlit("\n");
            assert(lines[i as int]@ == dv[i as int]);
            assert(dv.take(i + 1).drop_last() =~= dv.take(i as int));
            assert(dv.take(i + 1).last() == dv[i as int]);
            if i == 0 {
                assert(out@ =~= join_lines(dv.take(1)));
            } else {
                assert(out@ =~= join_lines(dv.take(i as int)) + seq!['\n'] + dv[i as int]);
            }
        }
        i = i + 1;
    }
    proof {
        assert(dv.take(dv.len() as int) =~= dv);
    }
    out
}

/// The flattened text of the field at `(page, area)` of the form.
pub fn get_lines(form: &FormState, page: usize, area: usize) -> (r: String)
    requires
        form.wf(),
        page < PAGE_COUNT,
        area < FIELDS_PER_PAGE,
    ensures
        r@ == join_lines(form.model().pages[page as int][area as int]),
{
    join(form.field_lines(page, area))
}

/// A snapshot of the whole form: the flattened text of every field, one
/// named slot per field.
pub struct Commit {
    pub title: String,
    pub description: String,
    pub steps: String,
    pub expected_description: String,
    pub system_before: String,
    pub system_after: String,
    pub expectation: String,
    pub samples: String,
    pub vulnerabilities: String,
    pub qualities: String,
    pub conforms: String,
    pub risks: String,
    pub tests_added: String,
    pub tests_updated: String,
    pub tests_deleted: String,
    pub platforms: String,
    pub breaking_changes: String,
    pub dependencies: String,
    pub rollbacks: String,
    pub up_migrations: String,
    pub down_migrations: String,
    pub changes: String,
    pub migration_why: String,
    pub authors: String,
    pub testers: String,
    pub comments: String,
    pub notes: String,
    pub packages: String,
    pub news_headline: String,
    pub workflow: String,
    pub workflows_samples: String,
    pub technical_considerations: String,
    pub next_features: String,
    pub next_motivation: String,
    pub next_reasons: String,
    pub next_resources: String,
}

/// Snapshot every field of the form into its named slot, flattened.
pub fn update_commit(form: &FormState) -> (c: Commit)
    requires
        form.wf(),
    ensures
        c.title@ == join_lines(form.model().pages[0][0]),
        c.description@ == join_lines(form.model().pages[0][1]),
        c.steps@ == join_lines(form.model().pages[0][2]),
        c.expected_description@ == join_lines(form.model().pages[0][3]),
        c.system_before@ == join_lines(form.model().pages[1][0]),
        c.system_after@ == join_lines(form.model().pages[1][1]),
        c.expectation@ == join_lines(form.model().pages[1][2]),
        c.samples@ == join_lines(form.model().pages[1][3]),
        c.vulnerabilities@ == join_lines(form.model().pages[2][0]),
        c.qualities@ == join_lines(form.model().pages[2][1]),
        c.conforms@ == join_lines(form.model().pages[2][2]),
        c.risks@ == join_lines(form.model().pages[2][3]),
        c.tests_added@ == join_lines(form.model().pages[3][0]),
        c.tests_updated@ == join_lines(form.model().pages[3][1]),
        c.tests_deleted@ == join_lines(form.model().pages[3][2]),
        c.platforms@ == join_lines(form.model().pages[3][3]),
        c.breaking_changes@ == join_lines(form.model().pages[4][0]),
        c.dependencies@ == join_lines(form.model().pages[4][1]),
        c.packages@ == join_lines(form.model().pages[4][2]),
        c.rollbacks@ == join_lines(form.model().pages[4][3]),
        c.up_migrations@ == join_lines(form.model().pages[5][0]),
        c.down_migrations@ == join_lines(form.model().pages[5][1]),
        c.changes@ == join_lines(form.model().pages[5][2]),
        c.migration_why@ == join_lines(form.model().pages[5][3]),
        c.authors@ == join_lines(form.model().pages[6][0]),
        c.testers@ == join_lines(form.model().pages[6][1]),
        c.comments@ == join_lines(form.model().pages[6][2]),
        c.notes@ == join_lines(form.model().pages[6][3]),
        c.news_headline@ == join_lines(form.model().pages[7][0]),
        c.workflow@ == join_lines(form.model().pages[7][1]),
        c.workflows_samples@ == join_lines(form.model().pages[7][2]),
        c.technical_considerations@ == join_lines(form.model().pages[7][3]),
        c.next_features@ == join_lines(form.model().pages[8][0]),
        c.next_motivation@ == join_lines(form.model().pages[8][1]),
        c.next_reasons@ == join_lines(form.model().pages[8][2]),
        c.next_resources@ == join_lines(form.model().pages[8][3]),
{
    Commit {
        title: get_lines(form, 0, 0),
        description: get_lines(form, 0, 1),
        steps: get_lines(form, 0, 2),
        expected_description: get_lines(form, 0, 3),
        system_before: get_lines(form, 1, 0),
        system_after: get_lines(form, 1, 1),
        expectation: get_lines(form, 1, 2),
        samples: get_lines(form, 1, 3),
        vulnerabilities: get_lines(form, 2, 0),
        qualities: get_lines(form, 2, 1),
        conforms: get_lines(form, 2, 2),
        risks: get_lines(form, 2, 3),
        tests_added: get_lines(form, 3, 0),
        tests_updated: get_lines(form, 3, 1),
        tests_deleted: get_lines(form, 3, 2),
        platforms: get_lines(form, 3, 3),
        breaking_changes: get_lines(form, 4, 0),
        dependencies: get_lines(form, 4, 1),
        packages: get_lines(form, 4, 2),
        rollbacks: get_lines(form, 4, 3),
        up_migrations: get_lines(form, 5, 0),
        down_migrations: get_lines(form, 5, 1),
        changes: get_lines(form, 5, 2),
        migration_why: get_lines(form, 5, 3),
        authors: get_lines(form, 6, 0),
        testers: get_lines(form, 6, 1),
        comments: get_lines(form, 6, 2),
        notes: get_lines(form, 6, 3),
        news_headline: get_lines(form, 7, 0),
        workflow: get_lines(form, 7, 1),
        workflows_samples: get_lines(form, 7, 2),
        technical_considerations: get_lines(form, 7, 3),
        next_features: get_lines(form, 8, 0),
        next_motivation: get_lines(form, 8, 1),
        next_reasons: get_lines(form, 8, 2),
        next_resources: get_lines(form, 8, 3),
    }
}

/// The names of the snapshot, in form order: the field at `(p, f)` stands
/// at index `p * 4 + f`.
pub open spec fn spec_context_names() -> Seq<Seq<char>> {
    Seq::new((PAGE_COUNT * FIELDS_PER_PAGE) as nat, |i: int| spec_field_name(i / 4, i % 4))
}

/// The flattened values of the snapshot, in form order.
pub open spec fn spec_context_values(m: FormModel) -> Seq<Seq<char>> {
    Seq::new((PAGE_COUNT * FIELDS_PER_PAGE) as nat, |i: int| join_lines(m.pages[i / 4][i % 4]))
}

/// Snapshot the form into the renderer's context: every field's semantic
/// name paired with its flattened text, in form order.
pub fn render_context(form: &FormState) -> (ctx: RenderContext)
    requires
        form.wf(),
    ensures
        ctx.wf(),
        ctx.names_view() == spec_context_names(),
        ctx.values_view() == spec_context_values(form.model()),
{
    let mut ctx = RenderContext::new();
    let mut p: usize = 0;
    while p < PAGE_COUNT
        invariant
            form.wf(),
            p <= PAGE_COUNT,
            ctx.wf(),
            ctx.names_view().len() == p * FIELDS_PER_PAGE,
            ctx.values_view().len() == p * FIELDS_PER_PAGE,
            forall|i: int|
                0 <= i < p * FIELDS_PER_PAGE ==> #[trigger] ctx.names_view()[i]
                    == spec_field_name(i / 4, i % 4),
            forall|i: int|
                0 <= i < p * FIELDS_PER_PAGE ==> #[trigger] ctx.values_view()[i] == join_lines(
                    form.model().pages[i / 4][i % 4],
                ),
        decreases PAGE_COUNT - p,
    {
        let mut f: usize = 0;
        while f < FIELDS_PER_PAGE
            invariant
                form.wf(),
                p < PAGE_COUNT,
                f <= FIELDS_PER_PAGE,
                ctx.wf(),
                ctx.names_view().len() == p * FIELDS_PER_PAGE + f,
                ctx.values_view().len() == p * FIELDS_PER_PAGE + f,
                forall|i: int|
                    0 <= i < p * FIELDS_PER_PAGE + f ==> #[trigger] ctx.names_view()[i]
                        == spec_field_name(i / 4, i % 4),
                forall|i: int|
                    0 <= i < p * FIELDS_PER_PAGE + f ==> #[trigger] ctx.values_view()[i]
                        == join_lines(form.model().pages[i / 4][i % 4]),
            decreases FIELDS_PER_PAGE - f,
        {
            let name = field_name(p, f).to_owned();
            let value = get_lines(form, p, f);
            ctx.push_pair(name, value);
            proof {
                assert((p * FIELDS_PER_PAGE + f) as int / 4 == p as int && (p * FIELDS_PER_PAGE
                    + f) as int % 4 == f as int) by (nonlinear_arith)
                    requires
                        p < PAGE_COUNT,
                        f < FIELDS_PER_PAGE,
                        FIELDS_PER_PAGE == 4,
                ;
            }
            f = f + 1;
        }
        p = p + 1;
    }
    proof {
        assert(ctx.names_view() =~= spec_context_names());
        assert(ctx.values_view() =~= spec_context_values(form.model()));
    }
    ctx
}

/// Render the commit template against the form: substitute every field's
/// placeholder by that field's flattened text.
pub fn render_commit_message(form: &FormState) -> (r: String)
    requires
        form.wf(),
    ensures
        r@ == subst(COMMIT_TEMPLATE@, spec_context_names(), spec_context_values(form.model())),
{
    let ctx = render_context(form);
    substitute(COMMIT_TEMPLATE, &ctx)
}

/// Joining percent-free lines yields a percent-free text.
proof fn lemma_join_no_percent(lines: Seq<Seq<char>>)
    requires
        forall|l: int| 0 <= l < lines.len() ==> no_percent(#[trigger] lines[l]),
    ensures
        no_percent(join_lines(lines)),
    decreases lines.len(),
{
    if lines.len() <= 1 {
    } else {
        lemma_join_no_percent(lines.drop_last());
        assert(no_percent(seq!['\n']));
        lemma_no_percent_concat(join_lines(lines.drop_last()), seq!['\n']);
        lemma_no_percent_concat(join_lines(lines.drop_last()) + seq!['\n'], lines.last());
    }
}

/// LAW — substitution into the commit message is total and leaves no
/// field's token behind.
///
/// The message is defined for every field content, empty and multi-line
/// included. Where every delimiter of the commit template belongs to a
/// field's placeholder and no line of any field holds a `%`, the rendered
/// message holds no `%` at all, so no `%name%` token of the field set
/// remains in it.
pub proof fn lemma_message_no_token_remains(m: FormModel)
    requires
        m.wf(),
        wf_template(COMMIT_TEMPLATE@, spec_context_names()),
        forall|p: int, f: int, l: int|
            0 <= p < m.pages.len() && 0 <= f < m.pages[p].len() && 0 <= l < m.pages[p][f].len()
                ==> no_percent(#[trigger] m.pages[p][f][l]),
    ensures
        no_percent(subst(COMMIT_TEMPLATE@, spec_context_names(), spec_context_values(m))),
        forall|k: int|
            0 <= k < spec_context_names().len() ==> !contains_placeholder(
                subst(COMMIT_TEMPLATE@, spec_context_names(), spec_context_values(m)),
                spec_context_names()[k],
            ),
{
    let names = spec_context_names();
    let values = spec_context_values(m);
    assert forall|k: int| 0 <= k < values.len() implies no_percent(#[trigger] values[k]) by {
        let p = k / 4;
        let f = k % 4;
        assert(0 <= p < m.pages.len() && 0 <= f < m.pages[p].len());
        assert(values[k] == join_lines(m.pages[p][f]));
        lemma_join_no_percent(m.pages[p][f]);
    }
    lemma_substitution_no_token_remains(COMMIT_TEMPLATE@, names, values);
}

} // verus!
