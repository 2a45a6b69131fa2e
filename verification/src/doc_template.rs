//! External-template rendering.
//!
//! A template document is a sequence of text lines. A line is either
//! literal text, copied to the output followed by a newline, or a
//! directive: `@each name` emits every line of the named field in its
//! original order, `@if name` opens a block that is emitted only when the
//! named field has a non-empty line, and `@end` closes it. The context
//! exposes every field as a named, ordered sequence of lines. Rendering
//! never touches the form: a bad document or an unknown name is reported
//! as a recoverable error.

use vstd::prelude::*;
use vstd::string::StrSliceExecFns;
use vstd::string::StringExecFns;

verus! {

/// Why a rendering attempt was rejected.
#[derive(Clone, Copy, PartialEq, Eq, Structural, Debug)]
pub enum RenderError {
    /// No template document of the requested name is in the store.
    TemplateNotFound,
    /// A directive names a field that the context does not hold.
    UndefinedReference,
    /// A malformed directive line, or an unbalanced `@if` / `@end`.
    SyntaxError,
}

/// The context of the external renderer: every field as a named, ordered
/// sequence of lines.
pub struct ListContext {
    pub names: Vec<String>,
    pub values: Vec<Vec<String>>,
}

impl ListContext {
    /// One value per name.
    pub open spec fn wf(self) -> bool {
        self.names@.len() == self.values@.len()
    }

    /// The field names, as character sequences.
    pub open spec fn names_view(self) -> Seq<Seq<char>> {
        self.names.deep_view()
    }

    /// The fields' lines, as character sequences.
    pub open spec fn values_view(self) -> Seq<Seq<Seq<char>>> {
        self.values.deep_view()
    }

    /// An empty context.
    pub fn new() -> (r: ListContext)
        ensures
            r.wf(),
            r.names_view() == Seq::<Seq<char>>::empty(),
            r.values_view() == Seq::<Seq<Seq<char>>>::empty(),
    {
        let r = ListContext { names: Vec::new(), values: Vec::new() };
        proof {
            assert(r.names_view() =~= Seq::<Seq<char>>::empty());
            assert(r.values_view() =~= Seq::<Seq<Seq<char>>>::empty());
        }
        r
    }

    /// Record the lines of one more field.
    pub fn push_field(&mut self, name: String, lines: Vec<String>)
        requires
            old(self).wf(),
        ensures
            final(self).wf(),
            final(self).names_view() == old(self).names_view().push(name@),
            final(self).values_view() == old(self).values_view().push(lines.deep_view()),
    {
        let ghost gn = name@;
        let ghost gv = lines.deep_view();
        self.names.push(name);
        self.values.push(lines);
        proof {
            assert(self.names_view() =~= old(self).names_view().push(gn));
            assert(self.values_view() =~= old(self).values_view().push(gv));
        }
    }
}

/// The index of the first field of the given name, if any.
pub open spec fn spec_lookup(names: Seq<Seq<char>>, name: Seq<char>, k: int) -> Option<int>
    decreases names.len() - k,
{
    if k < 0 || k >= names.len() {
        None
    } else if names[k] == name {
        Some(k)
    } else {
        spec_lookup(names, name, k + 1)
    }
}

/// What an iteration directive emits: every line of the field, in order,
/// each followed by a newline.
pub open spec fn emit_lines(v: Seq<Seq<char>>) -> Seq<char>
    decreases v.len(),
{
    if v.len() == 0 {
        Seq::empty()
    } else {
        emit_lines(v.drop_last()) + v.last() + seq!['\n']
    }
}

/// A field holds content: at least one of its lines is non-empty.
pub open spec fn truthy(v: Seq<Seq<char>>) -> bool {
    exists|j: int| 0 <= j < v.len() && v[j].len() > 0
}

/// What rendering the document lines from position `i` on yields, inside
/// (`cond` set) or outside an `@if` block.
pub open spec fn spec_render_from(
    ls: Seq<Seq<char>>,
    names: Seq<Seq<char>>,
    values: Seq<Seq<Seq<char>>>,
    cond: Option<bool>,
    i: int,
) -> Result<Seq<char>, RenderError>
    decreases ls.len() - i,
{
    if i < 0 || i >= ls.len() {
        if cond is Some {
            Err(RenderError::SyntaxError)
        } else {
            Ok(Seq::empty())
        }
    } else {
        let s = ls[i];
        if s == "@end"@ {
            if cond is None {
                Err(RenderError::SyntaxError)
            } else {
                spec_render_from(ls, names, values, None, i + 1)
            }
        } else if s.len() >= 6 && s.take(6) == "@each "@ {
            match spec_lookup(names, s.skip(6), 0) {
                None => Err(RenderError::UndefinedReference),
                Some(k) => match spec_render_from(ls, names, values, cond, i + 1) {
                    Err(e) => Err(e),
                    Ok(t) => Ok(
                        if cond == Some(false) {
                            t
                        } else {
                            emit_lines(values[k]) + t
                        },
                    ),
                },
            }
        } else if s.len() >= 4 && s.take(4) == "@if "@ {
            if cond is Some {
                Err(RenderError::SyntaxError)
            } else {
                match spec_lookup(names, s.skip(4), 0) {
                    None => Err(RenderError::UndefinedReference),
                    Some(k) => spec_render_from(ls, names, values, Some(truthy(values[k])), i + 1),
                }
            }
        } else if s.len() >= 1 && s[0] == '@' {
            Err(RenderError::SyntaxError)
        } else {
            match spec_render_from(ls, names, values, cond, i + 1) {
                Err(e) => Err(e),
                Ok(t) => Ok(
                    if cond == Some(false) {
                        t
                    } else {
                        s + seq!['\n'] + t
                    },
                ),
            }
        }
    }
}

/// What rendering a whole document against a context yields.
pub open spec fn spec_render(
    ls: Seq<Seq<char>>,
    names: Seq<Seq<char>>,
    values: Seq<Seq<Seq<char>>>,
) -> Result<Seq<char>, RenderError> {
    spec_render_from(ls, names, values, None, 0)
}

/// Whether two text slices hold the same characters.
fn str_eq(a: &str, b: &str) -> (r: bool)
    ensures
        r == (a@ == b@),
{
    let alen = a.unicode_len();
    let blen = b.unicode_len();
    if alen != blen {
        return false;
    }
    let mut j: usize = 0;
    while j < alen
        invariant
            alen == a@.len(),
            blen == b@.len(),
            alen == blen,
            j <= alen,
            forall|q: int| 0 <= q < j ==> a@[q] == b@[q],
        decreases alen - j,
    {
        if a.get_char(j) != b.get_char(j) {
            return false;
        }
        j = j + 1;
    }
    proof {
        assert(a@ =~= b@);
    }
    true
}

/// Whether `s` begins with the characters of `p`.
fn has_prefix(s: &str, p: &str) -> (r: bool)
    ensures
        r == (s@.len() >= p@.len() && s@.take(p@.len() as int) == p@),
{
    let slen = s.unicode_len();
    let plen = p.unicode_len();
    if slen < plen {
        return false;
    }
    let mut j: usize = 0;
    while j < plen
        invariant
            slen == s@.len(),
            plen == p@.len(),
            plen <= slen,
            j <= plen,
            forall|q: int| 0 <= q < j ==> s@[q] == p@[q],
        decreases plen - j,
    {
        if s.get_char(j) != p.get_char(j) {
            proof {
                assert(s@.take(p@.len() as int)[j as int] == s@[j as int]);
            }
            return false;
        }
        j = j + 1;
    }
    proof {
        assert(s@.take(p@.len() as int) =~= p@);
    }
    true
}

/// The index of the first field of the given name in the context, if any.
fn lookup(ctx: &ListContext, name: &str) -> (r: Option<usize>)
    requires
        ctx.wf(),
    ensures
        spec_lookup(ctx.names_view(), name@, 0) == (match r {
            Some(k) => Some(k as int),
            None => None::<int>,
        }),
        r is Some ==> (r->0 as int) < ctx.names_view().len(),
{
    let ghost names = ctx.names_view();
    let mut k: usize = 0;
    while k < ctx.names.len()
        invariant
            ctx.wf(),
            names == ctx.names_view(),
            names.len() == ctx.names@.len(),
            k <= ctx.names@.len(),
            spec_lookup(names, name@, 0) == spec_lookup(names, name@, k as int),
        decreases ctx.names@.len() - k,
    {
        proof {
            assert(names[k as int] == ctx.names@[k as int]@);
        }
        if str_eq(ctx.names[k].as_str(), name) {
            return Some(k);
        }
        k = k + 1;
    }
    None
}

/// Append what an iteration directive emits: every line of the field, in
/// order, each followed by a newline.
fn emit_field(out: &mut String, lines: &Vec<String>)
    ensures
        final(out)@ == old(out)@ + emit_lines(lines.deep_view()),
{
    let ghost dv = lines.deep_view();
    let ghost base = out@;
    let mut i: usize = 0;
    proof {
        assert(dv.take(0) =~= Seq::<Seq<char>>::empty());
        assert(base + emit_lines(dv.take(0)) =~= base);
    }
    while i < lines.len()
        invariant
            dv == lines.deep_view(),
            dv.len() == lines@.len(),
            i <= lines.len(),
            out@ == base + emit_lines(dv.take(i as int)),
        decreases lines.len() - i,
    {
        out.append(lines[i].as_str());
        out.append("\n");
        proof {
            reveal_strlit("\n");
            assert(lines[i as int]@ == dv[i as int]);
            assert(dv.take(i + 1).drop_last() =~= dv.take(i as int));
            assert(dv.take(i + 1).last() == dv[i as int]);
            assert(out@ =~= base + emit_lines(dv.take(i + 1)));
        }
        i = i + 1;
    }
    proof {
        assert(dv.take(dv.len() as int) =~= dv);
    }
}

/// Whether the field holds content: at least one non-empty line.
fn field_truthy(lines: &Vec<String>) -> (r: bool)
    ensures
        r == truthy(lines.deep_view()),
{
    let ghost dv = lines.deep_view();
    let mut i: usize = 0;
    while i < lines.len()
        invariant
            dv == lines.deep_view(),
            dv.len() == lines@.len(),
            i <= lines.len(),
            forall|j: int| 0 <= j < i ==> (#[trigger] dv[j]).len() == 0,
        decreases lines.len() - i,
    {
        if !lines[i].as_str().is_empty() {
            proof {
                assert(lines[i as int]@ == dv[i as int]);
                assert(dv[i as int].len() > 0);
            }
            return true;
        }
        proof {
            assert(lines[i as int]@ == dv[i as int]);
        }
        i = i + 1;
    }
    false
}

/// Render a template document against the context: copy literal lines,
/// expand `@each`, honor `@if` blocks. A malformed or unbalanced
/// directive, or an unknown field name, is reported and nothing is
/// rendered.
pub fn render_doc(doc: &Vec<String>, ctx: &ListContext) -> (r: Result<String, RenderError>)
    requires
        ctx.wf(),
    ensures
        match r {
            Ok(s) => spec_render(doc.deep_view(), ctx.names_view(), ctx.values_view()) == Ok::<
                Seq<char>,
                RenderError,
            >(s@),
            Err(e) => spec_render(doc.deep_view(), ctx.names_view(), ctx.values_view()) == Err::<
                Seq<char>,
                RenderError,
            >(e),
        },
{
    let ghost ls = doc.deep_view();
    let ghost names = ctx.names_view();
    let ghost values = ctx.values_view();
    let mut out = String::new();
    let mut cond: Option<bool> = None;
    let mut i: usize = 0;
    proof {
        assert(Seq::<char>::empty() + spec_render_from(ls, names, values, None, 0)->Ok_0
            =~= spec_render_from(ls, names, values, None, 0)->Ok_0);
    }
    while i < doc.len()
        invariant
            ctx.wf(),
            ls == doc.deep_view(),
            names == ctx.names_view(),
            values == ctx.values_view(),
            ls.len() == doc@.len(),
            i <= doc.len(),
            spec_render(ls, names, values) == (match spec_render_from(
                ls,
                names,
                values,
                cond,
                i as int,
            ) {
                Ok(t) => Ok::<Seq<char>, RenderError>(out@ + t),
                Err(e) => Err::<Seq<char>, RenderError>(e),
            }),
        decreases doc.len() - i,
    {
        let line = &doc[i];
        let ghost s = ls[i as int];
        let ghost out0 = out@;
        let ghost cond0 = cond;
        proof {
            reveal_strlit("@end");
            reveal_strlit("@each ");
            reveal_strlit("@if ");
            assert(line@ == s);
        }
        let active = match cond {
            Some(false) => false,
            _ => true,
        };
        if str_eq(line.as_str(), "@end") {
            if cond.is_none() {
                return Err(RenderError::SyntaxError);
            }
            cond = None;
        } else if has_prefix(line.as_str(), "@each ") {
            let llen = line.as_str().unicode_len();
            let name = line.as_str().substring_char(6, llen);
            proof {
                assert(name@ =~= s.skip(6));
            }
            match lookup(ctx, name) {
                None => {
                    return Err(RenderError::UndefinedReference);
                },
                Some(k) => {
                    proof {
                        assert(values[k as int] == ctx.values@[k as int].deep_view());
                    }
                    if active {
                        emit_field(&mut out, &ctx.values[k]);
                    }
                    proof {
                        let rec = spec_render_from(ls, names, values, cond0, i + 1);
                        if rec is Ok && active {
                            assert(out0 + (emit_lines(values[k as int]) + rec->Ok_0) =~= (out0
                                + emit_lines(values[k as int])) + rec->Ok_0);
                        }
                    }
                },
            }
        } else if has_prefix(line.as_str(), "@if ") {
            if cond.is_some() {
                return Err(RenderError::SyntaxError);
            }
            let llen = line.as_str().unicode_len();
            let name = line.as_str().substring_char(4, llen);
            proof {
                assert(name@ =~= s.skip(4));
            }
            match lookup(ctx, name) {
                None => {
                    return Err(RenderError::UndefinedReference);
                },
                Some(k) => {
                    proof {
                        assert(values[k as int] == ctx.values@[k as int].deep_view());
                    }
                    cond = Some(field_truthy(&ctx.values[k]));
                },
            }
        } else if !line.as_str().is_empty() && line.as_str().get_char(0) == '@' {
            return Err(RenderError::SyntaxError);
        } else {
            proof {
                reveal_strlit("@end");
                reveal_strlit("@each ");
                reveal_strlit("@if ");
            }
            if active {
                out.append(line.as_str());
                out.append("\n");
                proof {
                    reveal_strlit("\n");
                    let rec = spec_render_from(ls, names, values, cond0, i + 1);
                    assert(out@ =~= out0 + (s + seq!['\n']));
                    if rec is Ok {
                        assert(out0 + (s + seq!['\n'] + rec->Ok_0) =~= (out0 + (s + seq!['\n']))
                            + rec->Ok_0);
                    }
                }
            }
        }
        i = i + 1;
    }
    if cond.is_some() {
        return Err(RenderError::SyntaxError);
    }
    proof {
        assert(spec_render_from(ls, names, values, cond, i as int) == Ok::<Seq<char>, RenderError>(
            Seq::<char>::empty(),
        ));
        assert(out@ + Seq::<char>::empty() =~= out@);
    }
    Ok(out)
}

/// A set of named template documents, as a deployment provides them.
pub struct TemplateStore {
    pub names: Vec<String>,
    pub docs: Vec<Vec<String>>,
}

impl TemplateStore {
    /// One document per name.
    pub open spec fn wf(self) -> bool {
        self.names@.len() == self.docs@.len()
    }

    /// The documents' names, as character sequences.
    pub open spec fn names_view(self) -> Seq<Seq<char>> {
        self.names.deep_view()
    }

    /// The documents' lines, as character sequences.
    pub open spec fn docs_view(self) -> Seq<Seq<Seq<char>>> {
        self.docs.deep_view()
    }

    /// An empty store.
    pub fn new() -> (r: TemplateStore)
        ensures
            r.wf(),
            r.names_view() == Seq::<Seq<char>>::empty(),
    {
        let r = TemplateStore { names: Vec::new(), docs: Vec::new() };
        proof {
            assert(r.names_view() =~= Seq::<Seq<char>>::empty());
        }
        r
    }

    /// Add a named document.
    pub fn push_doc(&mut self, name: String, doc: Vec<String>)
        requires
            old(self).wf(),
        ensures
            final(self).wf(),
            final(self).names_view() == old(self).names_view().push(name@),
            final(self).docs_view() == old(self).docs_view().push(doc.deep_view()),
    {
        let ghost gn = name@;
        let ghost gd = doc.deep_view();
        self.names.push(name);
        self.docs.push(doc);
        proof {
            assert(self.names_view() =~= old(self).names_view().push(gn));
            assert(self.docs_view() =~= old(self).docs_view().push(gd));
        }
    }
}

/// Render the named template document of the store against the context.
/// A name that the store does not hold is reported, and a bad document or
/// an unknown field likewise; nothing else changes.
pub fn render_named(store: &TemplateStore, name: &str, ctx: &ListContext) -> (r: Result<
    String,
    RenderError,
>)
    requires
        store.wf(),
        ctx.wf(),
    ensures
        spec_lookup(store.names_view(), name@, 0) is None ==> r == Err::<String, RenderError>(
            RenderError::TemplateNotFound,
        ),
        spec_lookup(store.names_view(), name@, 0) matches Some(k) ==> (match r {
            Ok(s) => spec_render(store.docs_view()[k], ctx.names_view(), ctx.values_view()) == Ok::<
                Seq<char>,
                RenderError,
            >(s@),
            Err(e) => spec_render(store.docs_view()[k], ctx.names_view(), ctx.values_view())
                == Err::<Seq<char>, RenderError>(e),
        }),
{
    let ghost snames = store.names_view();
    let mut k: usize = 0;
    while k < store.names.len()
        invariant
            store.wf(),
            ctx.wf(),
            snames == store.names_view(),
            snames.len() == store.names@.len(),
            k <= store.names@.len(),
            spec_lookup(snames, name@, 0) == spec_lookup(snames, name@, k as int),
        decreases store.names@.len() - k,
    {
        proof {
            assert(snames[k as int] == store.names@[k as int]@);
        }
        if str_eq(store.names[k].as_str(), name) {
            proof {
                assert(store.docs_view()[k as int] == store.docs@[k as int].deep_view());
            }
            return render_doc(&store.docs[k], ctx);
        }
        k = k + 1;
    }
    Err(RenderError::TemplateNotFound)
}

/// Finding a name in the field set at the first of its occurrences.
proof fn lemma_lookup_finds(names: Seq<Seq<char>>, k: int, j: int)
    requires
        0 <= j <= k < names.len(),
        forall|a: int| j <= a < k ==> names[a] != names[k],
    ensures
        spec_lookup(names, names[k], j) == Some(k),
    decreases k - j,
{
    if j < k {
        lemma_lookup_finds(names, k, j + 1);
    }
}

/// LAW — external-template rendering round-trips list-valued fields.
///
/// A document whose one line iterates a field emits exactly that field's
/// lines, each followed by a newline, in their original order; for a
/// two-line field the output is literally the first line, a newline, the
/// second line, a newline.
pub proof fn lemma_each_round_trip(
    names: Seq<Seq<char>>,
    values: Seq<Seq<Seq<char>>>,
    k: int,
)
    requires
        names.len() == values.len(),
        0 <= k < names.len(),
        forall|a: int| 0 <= a < k ==> names[a] != names[k],
    ensures
        spec_render(seq!["@each "@ + names[k]], names, values) == Ok::<Seq<char>, RenderError>(
            emit_lines(values[k]),
        ),
        values[k].len() == 2 ==> emit_lines(values[k]) == values[k][0] + seq!['\n'] + values[k][1]
            + seq!['\n'],
{
    reveal_strlit("@each ");
    reveal_strlit("@end");
    let ls = seq!["@each "@ + names[k]];
    let s = ls[0];
    assert(s.len() >= 6);
    assert(s != "@end"@);
    assert(s.take(6) =~= "@each "@);
    assert(s.skip(6) =~= names[k]);
    lemma_lookup_finds(names, k, 0);
    assert(spec_render_from(ls, names, values, None, 1) == Ok::<Seq<char>, RenderError>(
        Seq::<char>::empty(),
    ));
    assert(emit_lines(values[k]) + Seq::<char>::empty() =~= emit_lines(values[k]));
    if values[k].len() == 2 {
        let v = values[k];
        assert(v.drop_last() =~= seq![v[0]]);
        assert(seq![v[0]].drop_last() =~= Seq::<Seq<char>>::empty());
        assert(emit_lines(Seq::<Seq<char>>::empty()) == Seq::<char>::empty());
        assert(Seq::<char>::empty() + v[0] + seq!['\n'] =~= v[0] + seq!['\n']);
        assert(emit_lines(seq![v[0]]) == v[0] + seq!['\n']);
        assert(emit_lines(v) == v[0] + seq!['\n'] + v[1] + seq!['\n']);
    }
}

} // verus!
