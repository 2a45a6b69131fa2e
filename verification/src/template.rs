//! Fixed-template substitution.
//!
//! A template is a literal string holding named placeholders written
//! `%name%`. Rendering scans the template once, from left to right: at
//! each position, if a placeholder of a known field starts there, the
//! field's flattened value is emitted in its place and the scan resumes
//! after the placeholder; otherwise the character is copied as it stands.
//! A placeholder may occur any number of times and every occurrence met by
//! the scan is substituted; a `%name%` token whose name is not in the
//! field set is left as literal text.

use vstd::prelude::*;
use vstd::string::StrSliceExecFns;
use vstd::string::StringExecFns;

verus! {

/// The token that stands for the field `name` in a template.
pub open spec fn placeholder(name: Seq<char>) -> Seq<char> {
    seq!['%'] + name + seq!['%']
}

/// The placeholder of `name` stands in `t` at position `i`.
pub open spec fn match_at(t: Seq<char>, i: int, name: Seq<char>) -> bool {
    &&& 0 <= i
    &&& i + name.len() + 2 <= t.len()
    &&& t.subrange(i, i + name.len() + 2) == placeholder(name)
}

/// The first field (at index `k` or later) whose placeholder stands in `t`
/// at position `i`, if any.
pub open spec fn find_match_at(t: Seq<char>, i: int, names: Seq<Seq<char>>, k: int) -> Option<int>
    decreases names.len() - k,
{
    if k < 0 || k >= names.len() {
        None
    } else if match_at(t, i, names[k]) {
        Some(k)
    } else {
        find_match_at(t, i, names, k + 1)
    }
}

/// What the scan emits from position `i` of `t` to the end.
pub open spec fn subst_from(
    t: Seq<char>,
    names: Seq<Seq<char>>,
    values: Seq<Seq<char>>,
    i: int,
) -> Seq<char>
    decreases t.len() - i,
{
    if i < 0 || i >= t.len() {
        Seq::empty()
    } else {
        match find_match_at(t, i, names, 0) {
            // A matched placeholder always ends within the template; the
            // bound is restated here so the recursion visibly terminates.
            Some(k) => if i + names[k].len() + 2 <= t.len() {
                values[k] + subst_from(t, names, values, i + names[k].len() + 2)
            } else {
                values[k]
            },
            None => seq![t[i]] + subst_from(t, names, values, i + 1),
        }
    }
}

/// The substitution of every recognized placeholder of `t` by its value.
pub open spec fn subst(t: Seq<char>, names: Seq<Seq<char>>, values: Seq<Seq<char>>) -> Seq<char> {
    subst_from(t, names, values, 0)
}

/// A snapshot of the form for the fixed-template renderer: one flattened
/// value per field name, in one fixed order.
pub struct RenderContext {
    pub names: Vec<String>,
    pub values: Vec<String>,
}

impl RenderContext {
    /// One value per name.
    pub open spec fn wf(self) -> bool {
        self.names@.len() == self.values@.len()
    }

    /// The field names, as character sequences.
    pub open spec fn names_view(self) -> Seq<Seq<char>> {
        self.names.deep_view()
    }

    /// The field values, as character sequences.
    pub open spec fn values_view(self) -> Seq<Seq<char>> {
        self.values.deep_view()
    }

    /// An empty snapshot.
    pub fn new() -> (r: RenderContext)
        ensures
            r.wf(),
            r.names_view() == Seq::<Seq<char>>::empty(),
            r.values_view() == Seq::<Seq<char>>::empty(),
    {
        let r = RenderContext { names: Vec::new(), values: Vec::new() };
        proof {
            assert(r.names_view() =~= Seq::<Seq<char>>::empty());
            assert(r.values_view() =~= Seq::<Seq<char>>::empty());
        }
        r
    }

    /// Record the value of one more field.
    pub fn push_pair(&mut self, name: String, value: String)
        requires
            old(self).wf(),
        ensures
            final(self).wf(),
            final(self).names_view() == old(self).names_view().push(name@),
            final(self).values_view() == old(self).values_view().push(value@),
    {
        let ghost gn = name@;
        let ghost gv = value@;
        self.names.push(name);
        self.values.push(value);
        proof {
            assert(self.names_view() =~= old(self).names_view().push(gn));
            assert(self.values_view() =~= old(self).values_view().push(gv));
        }
    }
}

/// Whether the placeholder of `name` stands at character position `i` of
/// the template `t`, checked character by character.
fn placeholder_matches(t: &str, tlen: usize, i: usize, name: &str) -> (b: bool)
    requires
        tlen == t@.len(),
        i <= tlen,
    ensures
        b == match_at(t@, i as int, name@),
{
    let nlen = name.unicode_len();
    if tlen - i < 2 || nlen > tlen - i - 2 {
        proof {
            assert(!match_at(t@, i as int, name@));
        }
        return false;
    }
    if t.get_char(i) != '%' {
        proof {
            if match_at(t@, i as int, name@) {
                assert(t@.subrange(i as int, i + name@.len() + 2)[0] == t@[i as int]);
                assert(placeholder(name@)[0] == '%');
            }
        }
        return false;
    }
    let close = i + 1 + nlen;
    if t.get_char(close) != '%' {
        proof {
            if match_at(t@, i as int, name@) {
                assert(t@.subrange(i as int, i + name@.len() + 2)[name@.len() as int + 1] == t@[i
                    + name@.len() + 1]);
                assert(placeholder(name@)[name@.len() as int + 1] == '%');
            }
        }
        return false;
    }
    let mut j: usize = 0;
    while j < nlen
        invariant
            tlen == t@.len(),
            nlen == name@.len(),
            i + nlen + 2 <= tlen,
            j <= nlen,
            forall|q: int| 0 <= q < j ==> t@[i + 1 + q] == name@[q],
        decreases nlen - j,
    {
        if t.get_char(i + 1 + j) != name.get_char(j) {
            proof {
                if match_at(t@, i as int, name@) {
                    assert(t@.subrange(i as int, i + name@.len() + 2)[j + 1] == t@[i + 1
                        + j]);
                    assert(placeholder(name@)[j + 1] == name@[j as int]);
                }
            }
            return false;
        }
        j = j + 1;
    }
    proof {
        assert(t@.subrange(i as int, i + name@.len() + 2) =~= placeholder(name@)) by {
            assert forall|q: int| 0 <= q < name@.len() + 2 implies t@.subrange(
                i as int,
                i + name@.len() + 2,
            )[q] == placeholder(name@)[q] by {
                assert(t@.subrange(i as int, i + name@.len() + 2)[q] == t@[i + q]);
                if q == 0 {
                    assert(placeholder(name@)[0] == '%');
                } else if q == name@.len() + 1 {
                    assert(placeholder(name@)[q] == '%');
                } else {
                    assert(placeholder(name@)[q] == name@[q - 1]);
                    assert(t@[i + 1 + (q - 1)] == name@[q - 1]);
                }
            }
        }
    }
    true
}

/// The first field of the snapshot whose placeholder stands at position
/// `i` of the template, if any.
fn find_placeholder(t: &str, tlen: usize, i: usize, ctx: &RenderContext) -> (r: Option<usize>)
    requires
        tlen == t@.len(),
        i <= tlen,
        ctx.wf(),
    ensures
        find_match_at(t@, i as int, ctx.names_view(), 0) == (match r {
            Some(k) => Some(k as int),
            None => None::<int>,
        }),
        r is Some ==> (r->0 as int) < ctx.names_view().len() && match_at(
            t@,
            i as int,
            ctx.names_view()[r->0 as int],
        ),
{
    let ghost names = ctx.names_view();
    let mut k: usize = 0;
    while k < ctx.names.len()
        invariant
            tlen == t@.len(),
            i <= tlen,
            ctx.wf(),
            names == ctx.names_view(),
            k <= ctx.names@.len(),
            names.len() == ctx.names@.len(),
            find_match_at(t@, i as int, names, 0) == find_match_at(t@, i as int, names, k as int),
        decreases ctx.names@.len() - k,
    {
        proof {
            assert(names[k as int] == ctx.names@[k as int]@);
        }
        if placeholder_matches(t, tlen, i, ctx.names[k].as_str()) {
            return Some(k);
        }
        k = k + 1;
    }
    None
}

/// Render a template against a snapshot: substitute every recognized
/// placeholder by the value of its field, leave everything else as it
/// stands.
pub fn substitute(template: &str, ctx: &RenderContext) -> (out: String)
    requires
        ctx.wf(),
    ensures
        out@ == subst(template@, ctx.names_view(), ctx.values_view()),
{
    let ghost names = ctx.names_view();
    let ghost values = ctx.values_view();
    let tlen = template.unicode_len();
    let mut out = String::new();
    let mut i: usize = 0;
    while i < tlen
        invariant
            tlen == template@.len(),
            i <= tlen,
            ctx.wf(),
            names == ctx.names_view(),
            values == ctx.values_view(),
            subst(template@, names, values) == out@ + subst_from(
                template@,
                names,
                values,
                i as int,
            ),
        decreases tlen - i,
    {
        match find_placeholder(template, tlen, i, ctx) {
            Some(k) => {
                proof {
                    assert(match_at(template@, i as int, names[k as int]));
                    assert(values[k as int] == ctx.values@[k as int]@);
                }
                let name_len = ctx.names[k].as_str().unicode_len();
                out.append(ctx.values[k].as_str());
                i = i + name_len + 2;
            },
            None => {
                let piece = template.substring_char(i, i + 1);
                proof {
                    assert(piece@ =~= seq![template@[i as int]]);
                }
                out.append(piece);
                i = i + 1;
            },
        }
    }
    proof {
        assert(subst_from(template@, names, values, i as int) =~= Seq::<char>::empty());
        assert(out@ + Seq::<char>::empty() =~= out@);
    }
    out
}

/// No character of `s` is the placeholder delimiter `%`.
pub open spec fn no_percent(s: Seq<char>) -> bool {
    forall|j: int| 0 <= j < s.len() ==> s[j] != '%'
}

/// From position `i` on, every delimiter character of `t` belongs to a
/// recognized placeholder: the template is fully covered by the field set.
pub open spec fn wf_template_from(t: Seq<char>, names: Seq<Seq<char>>, i: int) -> bool
    decreases t.len() - i,
{
    if i < 0 || i >= t.len() {
        true
    } else {
        match find_match_at(t, i, names, 0) {
            Some(k) => if i + names[k].len() + 2 <= t.len() {
                wf_template_from(t, names, i + names[k].len() + 2)
            } else {
                true
            },
            None => t[i] != '%' && wf_template_from(t, names, i + 1),
        }
    }
}

/// Every delimiter character of `t` belongs to a recognized placeholder.
pub open spec fn wf_template(t: Seq<char>, names: Seq<Seq<char>>) -> bool {
    wf_template_from(t, names, 0)
}

/// A `%name%` token occurs somewhere in `s`.
pub open spec fn contains_placeholder(s: Seq<char>, name: Seq<char>) -> bool {
    exists|i: int| match_at(s, i, name)
}

/// Whether no character of `s` is the `%` delimiter.
fn percent_free(s: &str) -> (b: bool)
    ensures
        b == no_percent(s@),
{
    let n = s.unicode_len();
    let mut j: usize = 0;
    while j < n
        invariant
            n == s@.len(),
            j <= n,
            forall|q: int| 0 <= q < j ==> s@[q] != '%',
        decreases n - j,
    {
        if s.get_char(j) == '%' {
            return false;
        }
        j = j + 1;
    }
    true
}

/// Whether two text slices hold the same characters.
fn same_chars(a: &str, b: &str) -> (r: bool)
    ensures
        r == (a@ == b@),
{
    let alen = a.unicode_len();
    let blen = b.unicode_len();
    if alen != blen {
        return false;
    }
    let mut j: usize = 0;
    while j < alen
        invariant
            alen == a@.len(),
            blen == b@.len(),
            alen == blen,
            j <= alen,
            forall|q: int| 0 <= q < j ==> a@[q] == b@[q],
        decreases alen - j,
    {
        if a.get_char(j) != b.get_char(j) {
            return false;
        }
        j = j + 1;
    }
    proof {
        assert(a@ =~= b@);
    }
    true
}

/// Whether the snapshot's field names are pairwise distinct and hold no
/// delimiter: the premise under which a placeholder match picks out one
/// field and every occurrence is substituted exactly once.
pub fn names_unambiguous(ctx: &RenderContext) -> (r: bool)
    requires
        ctx.wf(),
    ensures
        r == ({
            &&& forall|k: int|
                0 <= k < ctx.names_view().len() ==> no_percent(#[trigger] ctx.names_view()[k])
            &&& forall|a: int, b: int|
                0 <= a < ctx.names_view().len() && 0 <= b < ctx.names_view().len()
                    && ctx.names_view()[a] == ctx.names_view()[b] ==> a == b
        }),
{
    let ghost names = ctx.names_view();
    let n = ctx.names.len();
    let mut k: usize = 0;
    while k < n
        invariant
            ctx.wf(),
            names == ctx.names_view(),
            names.len() == ctx.names@.len(),
            n == ctx.names@.len(),
            k <= n,
            forall|q: int| 0 <= q < k ==> no_percent(#[trigger] names[q]),
        decreases n - k,
    {
        proof {
            assert(names[k as int] == ctx.names@[k as int]@);
        }
        if !percent_free(ctx.names[k].as_str()) {
            return false;
        }
        k = k + 1;
    }
    let mut a: usize = 0;
    while a < n
        invariant
            ctx.wf(),
            names == ctx.names_view(),
            names.len() == ctx.names@.len(),
            n == ctx.names@.len(),
            a <= n,
            forall|q: int| 0 <= q < names.len() ==> no_percent(#[trigger] names[q]),
            forall|x: int, y: int| 0 <= x < a && x < y < names.len() ==> names[x] != names[y],
        decreases n - a,
    {
        let mut b: usize = a + 1;
        while b < n
            invariant
                ctx.wf(),
                names == ctx.names_view(),
                names.len() == ctx.names@.len(),
                n == ctx.names@.len(),
                a < b,
                b <= n,
                forall|y: int| a < y < b ==> names[a as int] != #[trigger] names[y],
            decreases n - b,
        {
            proof {
                assert(names[a as int] == ctx.names@[a as int]@);
                assert(names[b as int] == ctx.names@[b as int]@);
            }
            if same_chars(ctx.names[a].as_str(), ctx.names[b].as_str()) {
                return false;
            }
            b = b + 1;
        }
        a = a + 1;
    }
    proof {
        assert forall|x: int, y: int|
            0 <= x < names.len() && 0 <= y < names.len() && names[x] == names[y] implies x
            == y by {
            if x < y {
                assert(names[x] != names[y]);
            } else if y < x {
                assert(names[y] != names[x]);
            }
        }
    }
    true
}

/// Whether every delimiter character of the template belongs to a
/// placeholder of the snapshot's field set, so that substitution leaves no
/// delimiter behind.
pub fn template_fully_covered(template: &str, ctx: &RenderContext) -> (r: bool)
    requires
        ctx.wf(),
    ensures
        r == wf_template(template@, ctx.names_view()),
{
    let ghost names = ctx.names_view();
    let tlen = template.unicode_len();
    let mut i: usize = 0;
    while i < tlen
        invariant
            tlen == template@.len(),
            i <= tlen,
            ctx.wf(),
            names == ctx.names_view(),
            wf_template(template@, names) == wf_template_from(template@, names, i as int),
        decreases tlen - i,
    {
        match find_placeholder(template, tlen, i, ctx) {
            Some(k) => {
                let name_len = ctx.names[k].as_str().unicode_len();
                i = i + name_len + 2;
            },
            None => {
                if template.get_char(i) == '%' {
                    return false;
                }
                i = i + 1;
            },
        }
    }
    true
}

/// A found placeholder is a real one: the index is in range and the
/// placeholder of that field stands at the position.
proof fn lemma_find_match_some(t: Seq<char>, i: int, names: Seq<Seq<char>>, k0: int, k: int)
    requires
        find_match_at(t, i, names, k0) == Some(k),
    ensures
        k0 <= k < names.len(),
        match_at(t, i, names[k]),
    decreases names.len() - k0,
{
    if k0 < 0 || k0 >= names.len() {
    } else if match_at(t, i, names[k0]) {
    } else {
        lemma_find_match_some(t, i, names, k0 + 1, k);
    }
}

/// Where no placeholder is found, none of the fields' placeholders stands
/// at the position.
proof fn lemma_find_match_none(t: Seq<char>, i: int, names: Seq<Seq<char>>, k0: int)
    requires
        0 <= k0,
        find_match_at(t, i, names, k0) is None,
    ensures
        forall|k: int| k0 <= k < names.len() ==> !match_at(t, i, #[trigger] names[k]),
    decreases names.len() - k0,
{
    if k0 >= names.len() {
    } else if match_at(t, i, names[k0]) {
    } else {
        lemma_find_match_none(t, i, names, k0 + 1);
    }
}

/// The concatenation of two percent-free texts is percent-free.
pub proof fn lemma_no_percent_concat(a: Seq<char>, b: Seq<char>)
    requires
        no_percent(a),
        no_percent(b),
    ensures
        no_percent(a + b),
{
    assert forall|j: int| 0 <= j < (a + b).len() implies (a + b)[j] != '%' by {
        if j < a.len() {
            assert((a + b)[j] == a[j]);
        } else {
            assert((a + b)[j] == b[j - a.len()]);
        }
    }
}

/// Scanning a fully covered template with percent-free values emits a
/// percent-free text, from any position.
proof fn lemma_subst_from_no_percent(
    t: Seq<char>,
    names: Seq<Seq<char>>,
    values: Seq<Seq<char>>,
    i: int,
)
    requires
        names.len() == values.len(),
        forall|k: int| 0 <= k < values.len() ==> no_percent(#[trigger] values[k]),
        wf_template_from(t, names, i),
    ensures
        no_percent(subst_from(t, names, values, i)),
    decreases t.len() - i,
{
    if i < 0 || i >= t.len() {
    } else {
        match find_match_at(t, i, names, 0) {
            Some(k) => {
                lemma_find_match_some(t, i, names, 0, k);
                lemma_subst_from_no_percent(t, names, values, i + names[k].len() + 2);
                lemma_no_percent_concat(
                    values[k],
                    subst_from(t, names, values, i + names[k].len() + 2),
                );
            },
            None => {
                lemma_subst_from_no_percent(t, names, values, i + 1);
                assert(no_percent(seq![t[i]]));
                lemma_no_percent_concat(seq![t[i]], subst_from(t, names, values, i + 1));
            },
        }
    }
}

/// A percent-free text holds no `%name%` token at all.
proof fn lemma_no_percent_no_placeholder(s: Seq<char>, name: Seq<char>)
    requires
        no_percent(s),
    ensures
        !contains_placeholder(s, name),
{
    if contains_placeholder(s, name) {
        let i = choose|i: int| match_at(s, i, name);
        assert(s.subrange(i, i + name.len() + 2)[0] == s[i]);
        assert(placeholder(name)[0] == '%');
    }
}

/// LAW — fixed-template substitution is total and leaves no known token.
///
/// Substitution is a total function of the template and the snapshot (it
/// is defined for every field content, empty and multi-line included).
/// Where every delimiter of the template belongs to a recognized
/// placeholder and no field value holds a `%`, the output holds no `%` at
/// all, so no `%name%` token of the field set remains in it.
pub proof fn lemma_substitution_no_token_remains(
    t: Seq<char>,
    names: Seq<Seq<char>>,
    values: Seq<Seq<char>>,
)
    requires
        names.len() == values.len(),
        wf_template(t, names),
        forall|k: int| 0 <= k < values.len() ==> no_percent(#[trigger] values[k]),
    ensures
        no_percent(subst(t, names, values)),
        forall|k: int|
            0 <= k < names.len() ==> !contains_placeholder(subst(t, names, values), names[k]),
{
    lemma_subst_from_no_percent(t, names, values, 0);
    assert forall|k: int|
        0 <= k < names.len() implies !contains_placeholder(
        subst(t, names, values),
        names[k],
    ) by {
        lemma_no_percent_no_placeholder(subst(t, names, values), names[k]);
    }
}

/// At any position of any text, the placeholders of two percent-free
/// names cannot both stand: a match picks out one field.
pub proof fn lemma_match_unambiguous(t: Seq<char>, i: int, n1: Seq<char>, n2: Seq<char>)
    requires
        match_at(t, i, n1),
        match_at(t, i, n2),
        no_percent(n1),
        no_percent(n2),
    ensures
        n1 == n2,
{
    let p1 = placeholder(n1);
    let p2 = placeholder(n2);
    assert(forall|q: int| 0 <= q < n1.len() + 2 ==> t[i + q] == p1[q]) by {
        assert forall|q: int| 0 <= q < n1.len() + 2 implies t[i + q] == p1[q] by {
            assert(t.subrange(i, i + n1.len() + 2)[q] == t[i + q]);
        }
    }
    assert(forall|q: int| 0 <= q < n2.len() + 2 ==> t[i + q] == p2[q]) by {
        assert forall|q: int| 0 <= q < n2.len() + 2 implies t[i + q] == p2[q] by {
            assert(t.subrange(i, i + n2.len() + 2)[q] == t[i + q]);
        }
    }
    if n1.len() < n2.len() {
        let q = n1.len() as int + 1;
        assert(p1[q] == '%');
        assert(p2[q] == n2[q - 1]);
        assert(n2[q - 1] == '%');
        assert(false);
    } else if n2.len() < n1.len() {
        let q = n2.len() as int + 1;
        assert(p2[q] == '%');
        assert(p1[q] == n1[q - 1]);
        assert(n1[q - 1] == '%');
        assert(false);
    } else {
        assert forall|j: int| 0 <= j < n1.len() implies n1[j] == n2[j] by {
            assert(p1[j + 1] == n1[j]);
            assert(p2[j + 1] == n2[j]);
        }
        assert(n1 =~= n2);
    }
}

/// LAW — every occurrence of a known placeholder is substituted, exactly
/// once, by the value of the one field that names it.
///
/// Where the placeholder of field `k` stands at the scan position, and the
/// field names are percent-free and pairwise distinct, the scan emits
/// field `k`'s value there and resumes directly after the token.
pub proof fn lemma_occurrence_substituted(
    t: Seq<char>,
    names: Seq<Seq<char>>,
    values: Seq<Seq<char>>,
    i: int,
    k: int,
)
    requires
        names.len() == values.len(),
        0 <= k < names.len(),
        match_at(t, i, names[k]),
        i < t.len(),
        forall|a: int| 0 <= a < names.len() ==> no_percent(#[trigger] names[a]),
        forall|a: int, b: int|
            0 <= a < names.len() && 0 <= b < names.len() && names[a] == names[b] ==> a == b,
    ensures
        subst_from(t, names, values, i) == values[k] + subst_from(
            t,
            names,
            values,
            i + names[k].len() + 2,
        ),
{
    let found = find_match_at(t, i, names, 0);
    if found is None {
        lemma_find_match_none(t, i, names, 0);
        assert(false);
    }
    let j = found->0;
    lemma_find_match_some(t, i, names, 0, j);
    lemma_match_unambiguous(t, i, names[j], names[k]);
    assert(j == k);
}

} // verus!
