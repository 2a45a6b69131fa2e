//! The form state and its navigation.
//!
//! `FormState` is the single source of truth: the live content of every
//! field of every page, plus the cursor (current page, current field).
//! Commands move the cursor, saturating at the form's edges, or route an
//! edit to the field under the cursor; submitting and cancelling are
//! signalled outward, and the outcome of a dispatch is applied back to the
//! state: a success empties the whole form, a failure leaves it untouched.

use crate::quality::{classify_lines, spec_classify_lines, QualityClass};
use crate::schema::{FIELDS_PER_PAGE, PAGE_COUNT};
use vstd::prelude::*;

verus! {

/// One field slot: its text lines and the quality class derived from them.
pub struct Field {
    pub lines: Vec<String>,
    pub quality: QualityClass,
}

impl Field {
    /// The field's text, one character sequence per line.
    pub open spec fn content(self) -> Seq<Seq<char>> {
        self.lines.deep_view()
    }

    /// The stored quality class is the one derived from the content.
    pub open spec fn wf(self) -> bool {
        self.quality == spec_classify_lines(self.content())
    }

    /// A fresh, empty field.
    pub fn empty() -> (r: Field)
        ensures
            r.wf(),
            r.content() == Seq::<Seq<char>>::empty(),
    {
        let r = Field { lines: Vec::new(), quality: QualityClass::Neutral };
        proof {
            assert(r.content() =~= Seq::<Seq<char>>::empty());
            assert(crate::quality::spec_line_lengths(r.content()) =~= Seq::<nat>::empty());
        }
        r
    }
}

/// The mathematical model of a form: the lines of every field, and the
/// cursor.
pub struct FormModel {
    pub pages: Seq<Seq<Seq<Seq<char>>>>,
    pub page: int,
    pub field: int,
}

impl FormModel {
    /// The fixed shape of the form and the cursor's bounds.
    pub open spec fn wf(self) -> bool {
        &&& self.pages.len() == PAGE_COUNT
        &&& forall|p: int|
            0 <= p < self.pages.len() ==> (#[trigger] self.pages[p]).len() == FIELDS_PER_PAGE
        &&& 0 <= self.page < self.pages.len()
        &&& 0 <= self.field < FIELDS_PER_PAGE
    }
}

/// The model of a fresh form: every field empty, the cursor at the origin.
pub open spec fn empty_model() -> FormModel {
    FormModel {
        pages: Seq::new(
            PAGE_COUNT as nat,
            |p: int| Seq::new(FIELDS_PER_PAGE as nat, |f: int| Seq::<Seq<char>>::empty()),
        ),
        page: 0,
        field: 0,
    }
}

/// Go to the next page if there is one; the field cursor is reset either
/// way.
pub open spec fn m_next_page(m: FormModel) -> FormModel {
    FormModel {
        pages: m.pages,
        page: if m.page < m.pages.len() - 1 {
            m.page + 1
        } else {
            m.page
        },
        field: 0,
    }
}

/// Go to the previous page if there is one; the field cursor is reset
/// either way.
pub open spec fn m_prev_page(m: FormModel) -> FormModel {
    FormModel {
        pages: m.pages,
        page: if m.page > 0 {
            m.page - 1
        } else {
            m.page
        },
        field: 0,
    }
}

/// Move the field cursor forward on the current page, saturating at the
/// last slot.
pub open spec fn m_next_field(m: FormModel) -> FormModel {
    FormModel {
        pages: m.pages,
        page: m.page,
        field: if m.field < FIELDS_PER_PAGE - 1 {
            m.field + 1
        } else {
            m.field
        },
    }
}

/// Move the field cursor back on the current page, saturating at the
/// first slot.
pub open spec fn m_prev_field(m: FormModel) -> FormModel {
    FormModel {
        pages: m.pages,
        page: m.page,
        field: if m.field > 0 {
            m.field - 1
        } else {
            m.field
        },
    }
}

/// Replace the content of the field under the cursor.
pub open spec fn m_edit(m: FormModel, lines: Seq<Seq<char>>) -> FormModel {
    FormModel {
        pages: m.pages.update(m.page, m.pages[m.page].update(m.field, lines)),
        page: m.page,
        field: m.field,
    }
}

/// What a dispatch outcome does to the form: a success empties it, a
/// failure leaves it as it stands.
pub open spec fn m_after_dispatch(m: FormModel, success: bool) -> FormModel {
    if success {
        empty_model()
    } else {
        m
    }
}

/// One abstract input to the navigation controller.
pub enum Command {
    NextPage,
    PrevPage,
    NextField,
    PrevField,
    Edit(Vec<String>),
    Submit,
    Cancel,
}

/// What the caller of `step` is to do next.
#[derive(Clone, Copy, PartialEq, Eq, Structural, Debug)]
pub enum Action {
    Continue,
    SubmitRequested,
    Exit,
}

/// The live form: the content of every field and the cursor.
pub struct FormState {
    pages: Vec<Vec<Field>>,
    current_page: usize,
    current_field: usize,
}

impl FormState {
    /// The model: every field's lines, and the cursor.
    pub closed spec fn model(self) -> FormModel {
        FormModel {
            pages: self.pages@.map_values(
                |pg: Vec<Field>| pg@.map_values(|fl: Field| fl.content()),
            ),
            page: self.current_page as int,
            field: self.current_field as int,
        }
    }

    /// The form has its fixed shape, the cursor is in bounds, and every
    /// field's stored quality class matches its content.
    pub closed spec fn wf(self) -> bool {
        &&& self.pages@.len() == PAGE_COUNT
        &&& forall|p: int|
            0 <= p < self.pages@.len() ==> (#[trigger] self.pages@[p])@.len() == FIELDS_PER_PAGE
        &&& forall|p: int, f: int|
            0 <= p < self.pages@.len() && 0 <= f < (#[trigger] self.pages@[p])@.len() ==> (
            #[trigger] self.pages@[p]@[f]).wf()
        &&& self.current_page < self.pages@.len()
        &&& self.current_field < FIELDS_PER_PAGE
    }

    /// A fresh form: every field empty, the cursor at the origin.
    pub fn new() -> (r: FormState)
        ensures
            r.wf(),
            r.model() == empty_model(),
    {
        let mut pages: Vec<Vec<Field>> = Vec::new();
        let mut p: usize = 0;
        while p < PAGE_COUNT
            invariant
                p <= PAGE_COUNT,
                pages@.len() == p,
                forall|a: int| 0 <= a < p ==> (#[trigger] pages@[a])@.len() == FIELDS_PER_PAGE,
                forall|a: int, b: int|
                    0 <= a < p && 0 <= b < (#[trigger] pages@[a])@.len() ==> (
                    #[trigger] pages@[a]@[b]).wf() && pages@[a]@[b].content()
                        == Seq::<Seq<char>>::empty(),
            decreases PAGE_COUNT - p,
        {
            let mut fields: Vec<Field> = Vec::new();
            let mut f: usize = 0;
            while f < FIELDS_PER_PAGE
                invariant
                    f <= FIELDS_PER_PAGE,
                    fields@.len() == f,
                    forall|b: int|
                        0 <= b < f ==> (#[trigger] fields@[b]).wf() && fields@[b].content()
                            == Seq::<Seq<char>>::empty(),
                decreases FIELDS_PER_PAGE - f,
            {
                fields.push(Field::empty());
                f = f + 1;
            }
            pages.push(fields);
            p = p + 1;
        }
        let r = FormState { pages, current_page: 0, current_field: 0 };
        proof {
            assert(r.model().pages =~~= empty_model().pages);
        }
        r
    }

    /// The page the cursor is on.
    pub fn page(&self) -> (r: usize)
        ensures
            r as int == self.model().page,
    {
        self.current_page
    }

    /// The field slot the cursor is on.
    pub fn field_index(&self) -> (r: usize)
        ensures
            r as int == self.model().field,
    {
        self.current_field
    }

    /// The number of pages.
    pub fn page_count(&self) -> (r: usize)
        requires
            self.wf(),
        ensures
            r as int == self.model().pages.len(),
    {
        self.pages.len()
    }

    /// The lines of the field at `(p, f)`.
    pub fn field_lines(&self, p: usize, f: usize) -> (r: &Vec<String>)
        requires
            self.wf(),
            p < PAGE_COUNT,
            f < FIELDS_PER_PAGE,
        ensures
            r.deep_view() == self.model().pages[p as int][f as int],
    {
        &self.pages[p][f].lines
    }

    /// The quality class of the field at `(p, f)`, as derived from its
    /// content.
    pub fn field_quality(&self, p: usize, f: usize) -> (q: QualityClass)
        requires
            self.wf(),
            p < PAGE_COUNT,
            f < FIELDS_PER_PAGE,
        ensures
            q == spec_classify_lines(self.model().pages[p as int][f as int]),
    {
        self.pages[p][f].quality
    }

    /// Go to the next page, saturating at the last; the field cursor is
    /// reset either way.
    pub fn next_page(&mut self)
        requires
            old(self).wf(),
        ensures
            final(self).wf(),
            final(self).model() == m_next_page(old(self).model()),
    {
        self.current_field = 0;
        if self.current_page < self.pages.len() - 1 {
            self.current_page = self.current_page + 1;
        }
    }

    /// Go to the previous page, saturating at the first; the field cursor
    /// is reset either way.
    pub fn prev_page(&mut self)
        requires
            old(self).wf(),
        ensures
            final(self).wf(),
            final(self).model() == m_prev_page(old(self).model()),
    {
        self.current_field = 0;
        if self.current_page > 0 {
            self.current_page = self.current_page - 1;
        }
    }

    /// Move the field cursor forward, saturating at the last slot.
    pub fn next_field(&mut self)
        requires
            old(self).wf(),
        ensures
            final(self).wf(),
            final(self).model() == m_next_field(old(self).model()),
    {
        if self.current_field < FIELDS_PER_PAGE - 1 {
            self.current_field = self.current_field + 1;
        }
    }

    /// Move the field cursor back, saturating at the first slot.
    pub fn prev_field(&mut self)
        requires
            old(self).wf(),
        ensures
            final(self).wf(),
            final(self).model() == m_prev_field(old(self).model()),
    {
        if self.current_field > 0 {
            self.current_field = self.current_field - 1;
        }
    }

    /// Replace the content of the field under the cursor and recompute its
    /// quality class.
    pub fn edit(&mut self, lines: Vec<String>)
        requires
            old(self).wf(),
        ensures
            final(self).wf(),
            final(self).model() == m_edit(old(self).model(), lines.deep_view()),
    {
        let ghost m0 = self.model();
        let ghost content = lines.deep_view();
        let ghost oldp = self.pages@;
        let q = classify_lines(&lines);
        let p = self.current_page;
        let f = self.current_field;
        let fresh = Field { lines, quality: q };
        self.pages[p][f] = fresh;
        proof {
            let np = self.model().pages;
            let tp = m_edit(m0, content).pages;
            assert forall|a: int| 0 <= a < np.len() implies np[a] =~~= tp[a] by {
                if a == p as int {
                    assert(self.pages@[a]@ == oldp[a]@.update(f as int, fresh));
                    assert forall|b: int| 0 <= b < np[a].len() implies np[a][b] == tp[a][b] by {
                        if b != f as int {
                            assert(self.pages@[a]@[b] == oldp[a]@[b]);
                        }
                    }
                } else {
                    assert(self.pages@[a] == oldp[a]);
                }
            }
            assert(np =~~= tp);
        }
    }

    /// Apply the outcome of a dispatch: on success the whole form is
    /// replaced by a fresh, empty one; on failure it is left untouched.
    pub fn apply_dispatch_result(&mut self, success: bool)
        requires
            old(self).wf(),
        ensures
            final(self).wf(),
            final(self).model() == m_after_dispatch(old(self).model(), success),
            !success ==> *final(self) == *old(self),
    {
        if success {
            *self = FormState::new();
        }
    }

    /// Apply one command: move the cursor, route an edit to the field
    /// under the cursor, or signal that the form is to be submitted or
    /// left.
    pub fn step(&mut self, cmd: Command) -> (a: Action)
        requires
            old(self).wf(),
        ensures
            final(self).wf(),
            match cmd {
                Command::NextPage => final(self).model() == m_next_page(old(self).model()) && a
                    == Action::Continue,
                Command::PrevPage => final(self).model() == m_prev_page(old(self).model()) && a
                    == Action::Continue,
                Command::NextField => final(self).model() == m_next_field(old(self).model()) && a
                    == Action::Continue,
                Command::PrevField => final(self).model() == m_prev_field(old(self).model()) && a
                    == Action::Continue,
                Command::Edit(lines) => final(self).model() == m_edit(
                    old(self).model(),
                    lines.deep_view(),
                ) && a == Action::Continue,
                Command::Submit => *final(self) == *old(self) && a == Action::SubmitRequested,
                Command::Cancel => *final(self) == *old(self) && a == Action::Exit,
            },
    {
        match cmd {
            Command::NextPage => {
                self.next_page();
                Action::Continue
            },
            Command::PrevPage => {
                self.prev_page();
                Action::Continue
            },
            Command::NextField => {
                self.next_field();
                Action::Continue
            },
            Command::PrevField => {
                self.prev_field();
                Action::Continue
            },
            Command::Edit(lines) => {
                self.edit(lines);
                Action::Continue
            },
            Command::Submit => Action::SubmitRequested,
            Command::Cancel => Action::Exit,
        }
    }
}

/// LAW — navigation is saturating.
///
/// From the origin, going back a page or a field changes nothing; on the
/// last page, going forward keeps the page, and on the last field slot,
/// going forward keeps the slot; and moving a page in either direction
/// resets the field cursor to the first slot, whatever it was, while no
/// cursor move ever touches any field's content.
pub proof fn lemma_navigation_saturating(m: FormModel)
    requires
        m.wf(),
    ensures
        m.page == 0 && m.field == 0 ==> m_prev_page(m) == m,
        m.field == 0 ==> m_prev_field(m) == m,
        m.page == m.pages.len() - 1 ==> m_next_page(m).page == m.page,
        m.page == m.pages.len() - 1 && m.field == 0 ==> m_next_page(m) == m,
        m.field == FIELDS_PER_PAGE - 1 ==> m_next_field(m) == m,
        m_next_page(m).field == 0 && m_prev_page(m).field == 0,
        m_next_page(m).pages == m.pages && m_prev_page(m).pages == m.pages,
        m_next_field(m).pages == m.pages && m_prev_field(m).pages == m.pages,
        m_next_field(m).page == m.page && m_prev_field(m).page == m.page,
{
}

/// LAW — submission reset.
///
/// After a successful dispatch the form is the fresh one: every field of
/// every page is empty and the cursor is at the origin. After a failed
/// dispatch the form is exactly the one that was submitted.
pub proof fn lemma_submission_reset(m: FormModel, success: bool)
    requires
        m.wf(),
    ensures
        success ==> m_after_dispatch(m, success) == empty_model(),
        success ==> forall|p: int, f: int|
            0 <= p < PAGE_COUNT && 0 <= f < FIELDS_PER_PAGE ==> (#[trigger] m_after_dispatch(
                m,
                success,
            ).pages[p][f]).len() == 0,
        success ==> m_after_dispatch(m, success).page == 0 && m_after_dispatch(
            m,
            success,
        ).field == 0,
        !success ==> m_after_dispatch(m, success) == m,
{
}

} // verus!
