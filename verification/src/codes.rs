//! The invite-code data model and the client-side filter: a case-insensitive
//! substring search over the code and the names of its consumers, combined
//! with a status predicate over used and disabled codes.

use vstd::prelude::*;
use crate::text::{lower, is_substring, lower_chars, contains_chars};

verus! {

/// One recorded consumption of an invite code. Immutable once present.
pub struct Use {
    pub used_by: String,
    pub used_at: String,
}

/// The mathematical value of a `Use`.
pub struct UseView {
    pub used_by: Seq<char>,
    pub used_at: Seq<char>,
}

impl View for Use {
    type V = UseView;

    open spec fn view(&self) -> UseView {
        UseView { used_by: self.used_by@, used_at: self.used_at@ }
    }
}

impl DeepView for Use {
    type V = UseView;

    open spec fn deep_view(&self) -> UseView {
        self@
    }
}

impl Clone for Use {
    fn clone(&self) -> (r: Self)
        ensures
            r == *self,
    {
        Use { used_by: self.used_by.clone(), used_at: self.used_at.clone() }
    }
}

/// One invite code as the backend reports it. The client reads codes and may
/// ask the backend to set `disabled`; it never mutates them locally.
pub struct Code {
    pub code: String,
    pub available: i32,
    pub disabled: bool,
    pub for_account: String,
    pub created_by: String,
    pub created_at: String,
    pub uses: Vec<Use>,
}

/// The mathematical value of a `Code`.
pub struct CodeView {
    pub code: Seq<char>,
    pub available: int,
    pub disabled: bool,
    pub for_account: Seq<char>,
    pub created_by: Seq<char>,
    pub created_at: Seq<char>,
    pub uses: Seq<UseView>,
}

impl View for Code {
    type V = CodeView;

    open spec fn view(&self) -> CodeView {
        CodeView {
            code: self.code@,
            available: self.available as int,
            disabled: self.disabled,
            for_account: self.for_account@,
            created_by: self.created_by@,
            created_at: self.created_at@,
            uses: self.uses.deep_view(),
        }
    }
}

impl DeepView for Code {
    type V = CodeView;

    open spec fn deep_view(&self) -> CodeView {
        self@
    }
}

impl Clone for Code {
    fn clone(&self) -> (r: Self)
        ensures
            r@ == self@,
            r.uses@ == self.uses@,
    {
        let mut uses: Vec<Use> = Vec::new();
        let mut i: usize = 0;
        while i < self.uses.len()
            invariant
                i <= self.uses@.len(),
                uses@ == self.uses@.take(i as int),
            decreases self.uses@.len() - i,
        {
            uses.push(self.uses[i].clone());
            proof {
                assert(uses@ =~= self.uses@.take(i + 1));
            }
            i = i + 1;
        }
        proof {
            assert(self.uses@.take(self.uses@.len() as int) =~= self.uses@);
        }
        let r = Code {
            code: self.code.clone(),
            available: self.available,
            disabled: self.disabled,
            for_account: self.for_account.clone(),
            created_by: self.created_by.clone(),
            created_at: self.created_at.clone(),
            uses,
        };
        proof {
            assert(r.uses.deep_view() =~= self.uses.deep_view());
        }
        r
    }
}

/// A full code listing as the backend returns it, with its pagination cursor.
pub struct InviteCodes {
    pub cursor: String,
    pub codes: Vec<Code>,
}

/// The status filter choices.
#[derive(PartialEq, Eq, Structural, Clone, Copy, Debug)]
pub enum FilterStatus {
    All,
    Used,
    Unused,
    Disabled,
}

/// What the filtered view is computed from: a search term and a status.
pub struct FilterCriteria {
    pub search_term: String,
    pub status_filter: FilterStatus,
}

/// The mathematical value of a `FilterCriteria`.
pub struct FilterCriteriaView {
    pub search_term: Seq<char>,
    pub status_filter: FilterStatus,
}

impl View for FilterCriteria {
    type V = FilterCriteriaView;

    open spec fn view(&self) -> FilterCriteriaView {
        FilterCriteriaView {
            search_term: self.search_term@,
            status_filter: self.status_filter,
        }
    }
}

impl Clone for FilterCriteria {
    fn clone(&self) -> (r: Self)
        ensures
            r == *self,
    {
        FilterCriteria { search_term: self.search_term.clone(), status_filter: self.status_filter }
    }
}

/// A code is used when no availability remains or some consumption is
/// recorded.
pub open spec fn code_is_used(c: CodeView) -> bool {
    c.available < 1 || c.uses.len() > 0
}

/// Whether the status filter keeps the code. `Unused` excludes disabled
/// codes even when they are otherwise unused.
pub open spec fn status_allows(f: FilterStatus, c: CodeView) -> bool {
    match f {
        FilterStatus::All => true,
        FilterStatus::Used => code_is_used(c),
        FilterStatus::Unused => !code_is_used(c) && !c.disabled,
        FilterStatus::Disabled => c.disabled,
    }
}

/// Whether the search term matches the code: an empty term matches every
/// code; otherwise the folded term must occur in the folded code or in the
/// folded name of some consumer.
pub open spec fn term_matches(term: Seq<char>, c: CodeView) -> bool {
    ||| term.len() == 0
    ||| is_substring(lower(term), lower(c.code))
    ||| exists|i: int|
        0 <= i < c.uses.len() && is_substring(lower(term), lower(#[trigger] c.uses[i].used_by))
}

/// Whether the code passes both filter parts.
pub open spec fn code_matches(crit: FilterCriteriaView, c: CodeView) -> bool {
    term_matches(crit.search_term, c) && status_allows(crit.status_filter, c)
}

/// The filtered view: the matching codes, in their original order.
pub open spec fn filtered_spec(codes: Seq<CodeView>, crit: FilterCriteriaView) -> Seq<CodeView> {
    codes.filter(|c: CodeView| code_matches(crit, c))
}

impl Code {
    /// A code is used exactly when `available < 1` or `uses` is non-empty.
    pub fn is_used(&self) -> (r: bool)
        ensures
            r == code_is_used(self@),
            r == (self.available < 1 || self.uses@.len() > 0),
    {
        self.available < 1 || self.uses.len() > 0
    }
}

/// Whether the search term matches the code, executable.
pub fn term_matches_code(term: &String, c: &Code) -> (r: bool)
    ensures
        r == term_matches(term@, c@),
{
    if term.as_str().is_empty() {
        return true;
    }
    let lt = lower_chars(term.as_str());
    let lc = lower_chars(c.code.as_str());
    if contains_chars(&lc, &lt) {
        return true;
    }
    let mut i: usize = 0;
    while i < c.uses.len()
        invariant
            i <= c.uses@.len(),
            lt@ == lower(term@),
            term@.len() > 0,
            !is_substring(lower(term@), lower(c@.code)),
            c@.uses.len() == c.uses@.len(),
            forall|j: int|
                0 <= j < i ==> !is_substring(lower(term@), lower(#[trigger] c@.uses[j].used_by)),
        decreases c.uses@.len() - i,
    {
        let lu = lower_chars(c.uses[i].used_by.as_str());
        if contains_chars(&lu, &lt) {
            proof {
                assert(c@.uses[i as int].used_by == c.uses@[i as int].used_by@);
            }
            return true;
        }
        proof {
            assert(c@.uses[i as int].used_by == c.uses@[i as int].used_by@);
        }
        i = i + 1;
    }
    false
}

/// Whether the status filter keeps the code, executable.
pub fn status_allows_code(f: FilterStatus, c: &Code) -> (r: bool)
    ensures
        r == status_allows(f, c@),
{
    match f {
        FilterStatus::All => true,
        FilterStatus::Used => c.is_used(),
        FilterStatus::Unused => !c.is_used() && !c.disabled,
        FilterStatus::Disabled => c.disabled,
    }
}

/// Whether the code passes both filter parts, executable.
pub fn matches_criteria(c: &Code, crit: &FilterCriteria) -> (r: bool)
    ensures
        r == code_matches(crit@, c@),
{
    term_matches_code(&crit.search_term, c) && status_allows_code(crit.status_filter, c)
}

/// Computes the filtered view of `codes` under `criteria`: the matching
/// codes, in their original order. Pure: no network call, `codes` unchanged.
pub fn apply_filter(codes: &Vec<Code>, criteria: &FilterCriteria) -> (r: Vec<Code>)
    ensures
        r.deep_view() == filtered_spec(codes.deep_view(), criteria@),
{
    let ghost dv = codes.deep_view();
    let mut out: Vec<Code> = Vec::new();
    let mut i: usize = 0;
    while i < codes.len()
        invariant
            i <= codes@.len(),
            dv == codes.deep_view(),
            dv.len() == codes@.len(),
            forall|j: int| 0 <= j < codes@.len() ==> dv[j] == codes@[j]@,
            out.deep_view() == dv.take(i as int).filter(
                |c: CodeView| code_matches(criteria@, c),
            ),
        decreases codes@.len() - i,
    {
        let ghost old_out = out.deep_view();
        let c = &codes[i];
        if matches_criteria(c, criteria) {
            out.push(c.clone());
            proof {
                assert(out.deep_view() =~= old_out.push(c@));
            }
        }
        proof {
            reveal(Seq::filter);
            assert(dv.take(i + 1).drop_last() =~= dv.take(i as int));
            assert(dv.take(i + 1).last() == dv[i as int]);
        }
        i = i + 1;
    }
    proof {
        assert(dv.take(codes@.len() as int) =~= dv);
    }
    out
}

proof fn lemma_filter_keeps_all(s: Seq<CodeView>, pred: spec_fn(CodeView) -> bool)
    requires
        forall|i: int| 0 <= i < s.len() ==> pred(#[trigger] s[i]),
    ensures
        s.filter(pred) == s,
    decreases s.len(),
{
    reveal(Seq::filter);
    if s.len() > 0 {
        assert forall|i: int| 0 <= i < s.drop_last().len() implies pred(
            #[trigger] s.drop_last()[i],
        ) by {
            assert(s.drop_last()[i] == s[i]);
        }
        lemma_filter_keeps_all(s.drop_last(), pred);
        assert(pred(s.last()));
        assert(s.filter(pred) =~= s);
    }
}

proof fn lemma_filter_congruent(
    s: Seq<CodeView>,
    p: spec_fn(CodeView) -> bool,
    q: spec_fn(CodeView) -> bool,
)
    requires
        forall|i: int| 0 <= i < s.len() ==> p(#[trigger] s[i]) == q(s[i]),
    ensures
        s.filter(p) == s.filter(q),
    decreases s.len(),
{
    reveal(Seq::filter);
    if s.len() > 0 {
        assert forall|i: int| 0 <= i < s.drop_last().len() implies p(#[trigger] s.drop_last()[i])
            == q(s.drop_last()[i]) by {
            assert(s.drop_last()[i] == s[i]);
        }
        lemma_filter_congruent(s.drop_last(), p, q);
        assert(p(s.last()) == q(s.last()));
    }
}

/// With an empty search term and the `All` status, filtering returns the
/// full collection unchanged, in its original order.
pub proof fn lemma_filter_identity(codes: Seq<CodeView>, crit: FilterCriteriaView)
    requires
        crit.search_term.len() == 0,
        crit.status_filter == FilterStatus::All,
    ensures
        filtered_spec(codes, crit) == codes,
{
    lemma_filter_keeps_all(codes, |c: CodeView| code_matches(crit, c));
}

/// The `Unused` status never returns a disabled code, nor a used one.
pub proof fn lemma_unused_excludes_disabled(codes: Seq<CodeView>, crit: FilterCriteriaView, i: int)
    requires
        crit.status_filter == FilterStatus::Unused,
        0 <= i < filtered_spec(codes, crit).len(),
    ensures
        !filtered_spec(codes, crit)[i].disabled,
        !code_is_used(filtered_spec(codes, crit)[i]),
{
    codes.lemma_filter_pred(|c: CodeView| code_matches(crit, c), i);
}

/// The `Disabled` status returns only disabled codes, whatever the search
/// term says of the code or its consumers.
pub proof fn lemma_disabled_only_disabled(codes: Seq<CodeView>, crit: FilterCriteriaView, i: int)
    requires
        crit.status_filter == FilterStatus::Disabled,
        0 <= i < filtered_spec(codes, crit).len(),
    ensures
        filtered_spec(codes, crit)[i].disabled,
{
    codes.lemma_filter_pred(|c: CodeView| code_matches(crit, c), i);
}

/// Every disabled code that the search term matches is returned under the
/// `Disabled` status.
pub proof fn lemma_disabled_complete(codes: Seq<CodeView>, crit: FilterCriteriaView, i: int)
    requires
        crit.status_filter == FilterStatus::Disabled,
        0 <= i < codes.len(),
        codes[i].disabled,
        term_matches(crit.search_term, codes[i]),
    ensures
        filtered_spec(codes, crit).contains(codes[i]),
{
    codes.lemma_filter_contains(|c: CodeView| code_matches(crit, c), i);
}

/// With an empty search term, the `Disabled` status returns exactly the
/// subset of disabled codes, in its original order.
pub proof fn lemma_disabled_exact(codes: Seq<CodeView>, crit: FilterCriteriaView)
    requires
        crit.search_term.len() == 0,
        crit.status_filter == FilterStatus::Disabled,
    ensures
        filtered_spec(codes, crit) == codes.filter(|c: CodeView| c.disabled),
{
    lemma_filter_congruent(codes, |c: CodeView| code_matches(crit, c), |c: CodeView| c.disabled);
}

/// Search matching is case-insensitive: two terms with the same folding
/// match exactly the same codes, through the code text or any consumer name.
pub proof fn lemma_match_case_insensitive(t1: Seq<char>, t2: Seq<char>, c: CodeView)
    requires
        lower(t1) == lower(t2),
    ensures
        term_matches(t1, c) == term_matches(t2, c),
{
    assert(lower(t1).len() == t1.len());
    assert(lower(t2).len() == t2.len());
}

} // verus!
