//! The invite-code store: the collection as last fetched from the backend,
//! the filter criteria, and the filtered view derived from them, kept
//! consistent at all times. Creating and disabling codes never mutate the
//! store: the caller refreshes afterwards to observe the change.

use vstd::prelude::*;
use crate::codes::{
    Code, CodeView, InviteCodes, FilterCriteria, FilterCriteriaView, FilterStatus, filtered_spec,
    apply_filter,
};
use crate::errors::{ApiError, Field};
use crate::gateway::{
    ResponseEvent, CreateInviteCodeBody, DisableInviteCodesRequest, status_ok, is_status_ok,
};
use crate::text::{
    joined_lines, join_lines, is_numeral, numeral_val, clamp_i32, parse_numeral_or_one,
};

verus! {

/// The store. The filtered view always equals the filter applied to the
/// collection under the current criteria.
pub struct InviteStore {
    codes: Vec<Code>,
    criteria: FilterCriteria,
    filtered: Vec<Code>,
}

impl InviteStore {
    /// The collection as last fetched.
    pub closed spec fn codes_view(&self) -> Seq<CodeView> {
        self.codes.deep_view()
    }

    /// The current filter criteria.
    pub closed spec fn criteria_view(&self) -> FilterCriteriaView {
        self.criteria@
    }

    #[verifier::type_invariant]
    spec fn wf(&self) -> bool {
        self.filtered.deep_view() == filtered_spec(self.codes.deep_view(), self.criteria@)
    }

    /// An empty store, with an empty search term and the `All` status.
    pub fn new() -> (r: Self)
        ensures
            r.codes_view() == Seq::<CodeView>::empty(),
            r.criteria_view().search_term == Seq::<char>::empty(),
            r.criteria_view().status_filter == FilterStatus::All,
    {
        let criteria = FilterCriteria {
            search_term: String::new(),
            status_filter: FilterStatus::All,
        };
        let codes: Vec<Code> = Vec::new();
        let filtered = apply_filter(&codes, &criteria);
        let r = InviteStore { codes, criteria, filtered };
        proof {
            assert(r.codes_view() =~= Seq::<CodeView>::empty());
        }
        r
    }

    /// The full collection.
    pub fn codes(&self) -> (r: &Vec<Code>)
        ensures
            r.deep_view() == self.codes_view(),
    {
        &self.codes
    }

    /// The filtered view of the collection under the current criteria.
    pub fn filtered(&self) -> (r: &Vec<Code>)
        ensures
            r.deep_view() == filtered_spec(self.codes_view(), self.criteria_view()),
    {
        proof {
            use_type_invariant(self);
        }
        &self.filtered
    }

    /// The current search term.
    pub fn search_term(&self) -> (r: &String)
        ensures
            r@ == self.criteria_view().search_term,
    {
        &self.criteria.search_term
    }

    /// The current status filter.
    pub fn status_filter(&self) -> (r: FilterStatus)
        ensures
            r == self.criteria_view().status_filter,
    {
        self.criteria.status_filter
    }

    /// Replaces the search term and recomputes the filtered view.
    pub fn set_search_term(&mut self, term: String)
        ensures
            final(self).codes_view() == old(self).codes_view(),
            final(self).criteria_view().search_term == term@,
            final(self).criteria_view().status_filter == old(self).criteria_view().status_filter,
    {
        let mut taken = InviteStore::new();
        core::mem::swap(&mut taken, self);
        let InviteStore { codes, criteria, filtered: _ } = taken;
        let criteria = FilterCriteria { search_term: term, status_filter: criteria.status_filter };
        let filtered = apply_filter(&codes, &criteria);
        *self = InviteStore { codes, criteria, filtered };
    }

    /// Replaces the status filter and recomputes the filtered view.
    pub fn set_status_filter(&mut self, status: FilterStatus)
        ensures
            final(self).codes_view() == old(self).codes_view(),
            final(self).criteria_view().search_term == old(self).criteria_view().search_term,
            final(self).criteria_view().status_filter == status,
    {
        let mut taken = InviteStore::new();
        core::mem::swap(&mut taken, self);
        let InviteStore { codes, criteria, filtered: _ } = taken;
        let criteria = FilterCriteria { search_term: criteria.search_term, status_filter: status };
        let filtered = apply_filter(&codes, &criteria);
        *self = InviteStore { codes, criteria, filtered };
    }

    /// Applies the outcome of the list-codes request. A decoded listing
    /// replaces the whole collection and the filtered view is recomputed;
    /// any failure surfaces its error and leaves the store as it was.
    pub fn receive_codes(&mut self, e: ResponseEvent<InviteCodes>) -> (r: Result<(), ApiError>)
        ensures
            final(self).criteria_view() == old(self).criteria_view(),
            e matches ResponseEvent::Failed ==> r == Err::<(), ApiError>(ApiError::Network)
                && final(self).codes_view() == old(self).codes_view(),
            e matches ResponseEvent::Status(s, body) ==> {
                &&& !status_ok(s) ==> r == Err::<(), ApiError>(ApiError::Server(s))
                    && final(self).codes_view() == old(self).codes_view()
                &&& status_ok(s) && body is None ==> r == Err::<(), ApiError>(ApiError::Decode)
                    && final(self).codes_view() == old(self).codes_view()
                &&& body matches Some(listing) ==> (status_ok(s) ==> r == Ok::<(), ApiError>(())
                    && final(self).codes_view() == listing.codes.deep_view())
            },
    {
        match e {
            ResponseEvent::Failed => Err(ApiError::Network),
            ResponseEvent::Status(s, body) => {
                if !is_status_ok(s) {
                    Err(ApiError::Server(s))
                } else {
                    match body {
                        None => Err(ApiError::Decode),
                        Some(listing) => {
                            let mut taken = InviteStore::new();
                            core::mem::swap(&mut taken, self);
                            let InviteStore { codes: _, criteria, filtered: _ } = taken;
                            let codes = listing.codes;
                            let filtered = apply_filter(&codes, &criteria);
                            *self = InviteStore { codes, criteria, filtered };
                            Ok(())
                        },
                    }
                }
            },
        }
    }
}

/// Builds the create-codes request. The count must be at least one; with a
/// smaller count nothing is sent and the validation error surfaces.
pub fn create_codes_request(count: i32, use_count: i32) -> (r: Result<
    CreateInviteCodeBody,
    ApiError,
>)
    ensures
        count < 1 ==> r == Err::<CreateInviteCodeBody, ApiError>(
            ApiError::Validation(Field::CodeCount),
        ),
        count >= 1 ==> r == Ok::<CreateInviteCodeBody, ApiError>(
            (CreateInviteCodeBody { code_count: count, use_count }),
        ),
{
    if count < 1 {
        Err(ApiError::Validation(Field::CodeCount))
    } else {
        Ok(CreateInviteCodeBody { code_count: count, use_count })
    }
}

/// Reads a user-supplied code count: a numeral reads as its clamped value,
/// anything else as the tolerant default of one.
pub fn parse_code_count(s: &str) -> (r: i32)
    ensures
        is_numeral(s@) ==> r as int == clamp_i32(numeral_val(s@)),
        !is_numeral(s@) ==> r == 1,
{
    parse_numeral_or_one(s)
}

/// Builds the disable-codes request for exactly one code, with no account
/// entries. The store is not touched: a refresh observes the change.
pub fn disable_codes_request(code: &String) -> (r: DisableInviteCodesRequest)
    ensures
        r.codes@.len() == 1,
        r.codes@[0] == *code,
        r.accounts@.len() == 0,
{
    let mut codes: Vec<String> = Vec::new();
    codes.push(code.clone());
    DisableInviteCodesRequest { codes, accounts: Vec::new() }
}

/// Joins the selected codes with newline separators, in the order the caller
/// supplies them; delivering the text is the caller's concern.
pub fn export_selection(codes: &Vec<String>) -> (r: String)
    ensures
        r@ == joined_lines(codes.deep_view()),
{
    join_lines(codes)
}

} // verus!
