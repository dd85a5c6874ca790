//! The resolution service: from a query to the address of a picture.
//!
//! A query names two tokens with `_` between them. White space around a
//! token does not count, and each token must hold something. The two are
//! looked up in the store, in either order. Where the store has never
//! been given a snapshot, the caller is told to run one refresh first,
//! and gets its answer afterwards.

use crate::record::RecordView;
use crate::refresh::{Coordinator, RefreshError, RefreshErrorView, RefreshOutcome};
use crate::store::{found_url, law_lookup_symmetric, LookupOutcome, LookupView};
use crate::text::{chars_of, trim_bounds, trimmed};
use vstd::prelude::*;
use vstd::string::*;

verus! {

/// What is wrong with a request.
#[derive(Debug, Clone, Copy, PartialEq, Eq)]
pub enum QueryFault {
    /// The request has no query.
    Missing,
    /// The query does not name two tokens.
    Malformed,
}

/// Why a request got no lookup.
#[derive(Debug, Clone, PartialEq, Eq)]
pub enum ResolveError {
    /// The request does not name two tokens.
    InputFormat(QueryFault),
    /// The store holds no snapshot, though no refresh failed.
    NotInitialized,
    /// The store holds no snapshot, and the refresh that should have given
    /// it one failed.
    Refresh(RefreshError),
}

/// The answer to a query.
#[derive(Debug, Clone, PartialEq, Eq)]
pub enum LookupResult {
    /// The address of the picture.
    Found(String),
    /// The snapshot has no record for the two tokens.
    NotFound,
    /// There was no lookup.
    Error(ResolveError),
}

/// The mathematical model of a [`LookupResult`].
pub enum ResultView {
    Found(Seq<char>),
    NotFound,
    InputFormat(QueryFault),
    NotInitialized,
    Refresh(RefreshErrorView),
}

impl View for LookupResult {
    type V = ResultView;

    open spec fn view(&self) -> ResultView {
        match self {
            LookupResult::Found(url) => ResultView::Found(url@),
            LookupResult::NotFound => ResultView::NotFound,
            LookupResult::Error(ResolveError::InputFormat(fault)) => ResultView::InputFormat(
                *fault,
            ),
            LookupResult::Error(ResolveError::NotInitialized) => ResultView::NotInitialized,
            LookupResult::Error(ResolveError::Refresh(error)) => ResultView::Refresh(error@),
        }
    }
}

/// What a caller that asks for a resolution is told.
#[derive(Debug, Clone, PartialEq, Eq)]
pub enum ResolveStep {
    /// The answer.
    Answer(LookupResult),
    /// The store has never been given a snapshot. The caller runs one
    /// refresh and then asks [`Coordinator::resolve_after_refresh`].
    Bootstrap,
}

/// The mathematical model of a [`ResolveStep`].
pub enum StepView {
    Answer(ResultView),
    Bootstrap,
}

impl View for ResolveStep {
    type V = StepView;

    open spec fn view(&self) -> StepView {
        match self {
            ResolveStep::Answer(result) => StepView::Answer(result@),
            ResolveStep::Bootstrap => StepView::Bootstrap,
        }
    }
}

/// The query has `_` at index `p` and nowhere else.
pub open spec fn only_separator_at(query: Seq<char>, p: int) -> bool {
    &&& 0 <= p < query.len()
    &&& query[p] == '_'
    &&& forall|i: int| 0 <= i < query.len() && i != p ==> query[i] != '_'
}

/// The two tokens that a query names: what stands before and after its
/// one `_`, without the white space around it. `None` where the query
/// does not have exactly one `_`, or where a token is empty.
pub open spec fn split_pair(query: Seq<char>) -> Option<(Seq<char>, Seq<char>)> {
    if exists|p: int| only_separator_at(query, p) {
        let p = choose|p: int| only_separator_at(query, p);
        let a = trimmed(query.subrange(0, p));
        let b = trimmed(query.subrange(p + 1, query.len() as int));
        if a.len() > 0 && b.len() > 0 {
            Some((a, b))
        } else {
            None
        }
    } else {
        None
    }
}

/// Both tokens hold something.
pub open spec fn tokens_ok(a: Seq<char>, b: Seq<char>) -> bool {
    a.len() > 0 && b.len() > 0
}

/// The answer that a store with a snapshot of `records` gives for the
/// tokens `a` and `b`.
pub open spec fn answer_spec(records: Seq<RecordView>, a: Seq<char>, b: Seq<char>) -> ResultView {
    match found_url(records, a, b) {
        Some(url) => ResultView::Found(url),
        None => ResultView::NotFound,
    }
}

/// What a caller that asks for the tokens `a` and `b` is told.
pub open spec fn resolve_spec(
    store: Option<Seq<RecordView>>,
    a: Seq<char>,
    b: Seq<char>,
) -> StepView {
    if !tokens_ok(a, b) {
        StepView::Answer(ResultView::InputFormat(QueryFault::Malformed))
    } else {
        match store {
            None => StepView::Bootstrap,
            Some(records) => StepView::Answer(answer_spec(records, a, b)),
        }
    }
}

/// What a caller that asks with a query is told.
pub open spec fn resolve_query_spec(store: Option<Seq<RecordView>>, query: Seq<char>) -> StepView {
    match split_pair(query) {
        None => StepView::Answer(ResultView::InputFormat(QueryFault::Malformed)),
        Some((a, b)) => resolve_spec(store, a, b),
    }
}

/// What a caller is told whose request holds the query `query`, or none.
pub open spec fn resolve_request_spec(
    store: Option<Seq<RecordView>>,
    query: Option<Seq<char>>,
) -> StepView {
    match query {
        None => StepView::Answer(ResultView::InputFormat(QueryFault::Missing)),
        Some(query) => resolve_query_spec(store, query),
    }
}

/// The answer for the tokens `a` and `b` once the refresh that the caller
/// ran has ended with `failure` (`None` where it did not fail).
pub open spec fn resolve_after_spec(
    store: Option<Seq<RecordView>>,
    a: Seq<char>,
    b: Seq<char>,
    failure: Option<RefreshErrorView>,
) -> ResultView {
    if !tokens_ok(a, b) {
        ResultView::InputFormat(QueryFault::Malformed)
    } else {
        match store {
            Some(records) => answer_spec(records, a, b),
            None => match failure {
                Some(error) => ResultView::Refresh(error),
                None => ResultView::NotInitialized,
            },
        }
    }
}

/// The answer for a request once the refresh that the caller ran has ended
/// with `failure` (`None` where it did not fail).
pub open spec fn resolve_request_after_spec(
    store: Option<Seq<RecordView>>,
    query: Option<Seq<char>>,
    failure: Option<RefreshErrorView>,
) -> ResultView {
    match query {
        None => ResultView::InputFormat(QueryFault::Missing),
        Some(query) => match split_pair(query) {
            None => ResultView::InputFormat(QueryFault::Malformed),
            Some((a, b)) => resolve_after_spec(store, a, b, failure),
        },
    }
}

/// The two tokens that a query names.
pub fn parse_pair(query: &str) -> (r: Option<(String, String)>)
    ensures
        match r {
            Some((a, b)) => split_pair(query@) == Some((a@, b@)),
            None => split_pair(query@) is None,
        },
{
    let chars = chars_of(query);
    let n = chars.len();
    let mut p: usize = 0;
    while p < n && chars[p] != '_'
        invariant
            p <= n,
            n == chars@.len(),
            forall|i: int| 0 <= i < p ==> chars@[i] != '_',
        decreases n - p,
    {
        p += 1;
    }
    if p == n {
        assert(forall|q: int| !only_separator_at(query@, q));
        return None;
    }
    let mut k: usize = p + 1;
    while k < n
        invariant
            p < k <= n,
            n == chars@.len(),
            chars@ == query@,
            chars@[p as int] == '_',
            forall|i: int| p < i < k ==> chars@[i] != '_',
        decreases n - k,
    {
        if chars[k] == '_' {
            assert forall|q: int| !only_separator_at(query@, q) by {
                if only_separator_at(query@, q) {
                    if q == p {
                        assert(query@[k as int] != '_');
                    } else {
                        assert(query@[p as int] != '_');
                    }
                }
            }
            return None;
        }
        k += 1;
    }
    proof {
        assert(only_separator_at(query@, p as int));
        let c = choose|c: int| only_separator_at(query@, c);
        if c != p {
            assert(query@[p as int] != '_');
        }
    }
    let left = trim_bounds(&chars, 0, p);
    let right = trim_bounds(&chars, p + 1, n);
    if left.0 == left.1 || right.0 == right.1 {
        return None;
    }
    let a = query.substring_char(left.0, left.1).to_owned();
    let b = query.substring_char(right.0, right.1).to_owned();
    Some((a, b))
}

/// The answer that a snapshot gives.
fn answer_of(outcome: LookupOutcome) -> (r: LookupResult)
    ensures
        r@ == match outcome@ {
            LookupView::Found(url) => ResultView::Found(url),
            LookupView::NotFound => ResultView::NotFound,
            LookupView::NotInitialized => ResultView::NotInitialized,
        },
{
    match outcome {
        LookupOutcome::Found(url) => LookupResult::Found(url),
        LookupOutcome::NotFound => LookupResult::NotFound,
        LookupOutcome::NotInitialized => LookupResult::Error(ResolveError::NotInitialized),
    }
}

impl Coordinator {
    /// Resolves the tokens `a` and `b`, in either order. Neither the store
    /// nor the guard changes. Where a token is empty the answer is a
    /// format error, whatever the store holds; where the store holds no
    /// snapshot, the caller is told to run a refresh.
    pub fn resolve(&self, a: &str, b: &str) -> (r: ResolveStep)
        ensures
            r@ == resolve_spec(self@.store, a@, b@),
    {
        if a.unicode_len() == 0 || b.unicode_len() == 0 {
            return ResolveStep::Answer(
                LookupResult::Error(ResolveError::InputFormat(QueryFault::Malformed)),
            );
        }
        let store = self.store();
        if !store.is_initialized() {
            return ResolveStep::Bootstrap;
        }
        ResolveStep::Answer(answer_of(store.lookup(a, b)))
    }

    /// Resolves a query. Where the query does not name two tokens the
    /// answer is a format error, whatever the store holds.
    pub fn resolve_query(&self, query: &str) -> (r: ResolveStep)
        ensures
            r@ == resolve_query_spec(self@.store, query@),
    {
        match parse_pair(query) {
            None => ResolveStep::Answer(
                LookupResult::Error(ResolveError::InputFormat(QueryFault::Malformed)),
            ),
            Some((a, b)) => self.resolve(a.as_str(), b.as_str()),
        }
    }

    /// Resolves a request, which holds a query or none. A request without
    /// a query gets a format error, whatever the store holds.
    pub fn resolve_request(&self, query: Option<&str>) -> (r: ResolveStep)
        ensures
            r@ == resolve_request_spec(
                self@.store,
                match query {
                    Some(q) => Some(q@),
                    None => None,
                },
            ),
    {
        match query {
            None => ResolveStep::Answer(
                LookupResult::Error(ResolveError::InputFormat(QueryFault::Missing)),
            ),
            Some(q) => self.resolve_query(q),
        }
    }

    /// The answer for the tokens `a` and `b` after the refresh that
    /// [`ResolveStep::Bootstrap`] asked for. No further refresh is asked
    /// for: where the store still holds no snapshot, the answer says why.
    pub fn resolve_after_refresh(
        &self,
        a: &str,
        b: &str,
        refresh: Result<RefreshOutcome, RefreshError>,
    ) -> (r: LookupResult)
        ensures
            r@ == resolve_after_spec(
                self@.store,
                a@,
                b@,
                match refresh {
                    Ok(_) => None,
                    Err(error) => Some(error@),
                },
            ),
            tokens_ok(a@, b@) && self@.store is None ==> (refresh matches Err(error) ==> r
                == LookupResult::Error(ResolveError::Refresh(error))),
    {
        if a.unicode_len() == 0 || b.unicode_len() == 0 {
            return LookupResult::Error(ResolveError::InputFormat(QueryFault::Malformed));
        }
        let store = self.store();
        if store.is_initialized() {
            answer_of(store.lookup(a, b))
        } else {
            match refresh {
                Ok(_) => LookupResult::Error(ResolveError::NotInitialized),
                Err(error) => LookupResult::Error(ResolveError::Refresh(error)),
            }
        }
    }

    /// The answer for a request after the refresh that
    /// [`ResolveStep::Bootstrap`] asked for.
    pub fn resolve_request_after_refresh(
        &self,
        query: Option<&str>,
        refresh: Result<RefreshOutcome, RefreshError>,
    ) -> (r: LookupResult)
        ensures
            r@ == resolve_request_after_spec(
                self@.store,
                match query {
                    Some(q) => Some(q@),
                    None => None,
                },
                match refresh {
                    Ok(_) => None,
                    Err(error) => Some(error@),
                },
            ),
    {
        match query {
            None => LookupResult::Error(ResolveError::InputFormat(QueryFault::Missing)),
            Some(q) => match parse_pair(q) {
                None => LookupResult::Error(ResolveError::InputFormat(QueryFault::Malformed)),
                Some((a, b)) => self.resolve_after_refresh(a.as_str(), b.as_str(), refresh),
            },
        }
    }
}

/// A resolution does not depend on the order in which the two tokens are
/// given.
pub proof fn law_resolve_symmetric(store: Option<Seq<RecordView>>, a: Seq<char>, b: Seq<char>)
    ensures
        resolve_spec(store, a, b) == resolve_spec(store, b, a),
{
    law_lookup_symmetric(store, a, b);
}

/// The answer after a refresh does not depend on the order of the two
/// tokens either.
pub proof fn law_resolve_after_symmetric(
    store: Option<Seq<RecordView>>,
    a: Seq<char>,
    b: Seq<char>,
    failure: Option<RefreshErrorView>,
)
    ensures
        resolve_after_spec(store, a, b, failure) == resolve_after_spec(store, b, a, failure),
{
    law_lookup_symmetric(store, a, b);
}

/// A resolution asks for a refresh exactly where the tokens are in order
/// and the store holds no snapshot, and the answer given after that
/// refresh is what the store then gives: a store with a snapshot is asked
/// for no refresh and answers as in [`resolve_spec`].
pub proof fn law_bootstrap_once(
    store: Option<Seq<RecordView>>,
    a: Seq<char>,
    b: Seq<char>,
    failure: Option<RefreshErrorView>,
)
    ensures
        resolve_spec(store, a, b) is Bootstrap <==> tokens_ok(a, b) && store is None,
        store is Some ==> resolve_spec(store, a, b) == StepView::Answer(
            resolve_after_spec(store, a, b, failure),
        ),
        tokens_ok(a, b) && store is None ==> resolve_after_spec(store, a, b, failure)
            == match failure {
            Some(error) => ResultView::Refresh(error),
            None => ResultView::NotInitialized,
        },
{
}

} // verus!
