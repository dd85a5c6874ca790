//! The mapping store: the snapshot of combinations that lookups read.
//!
//! A snapshot is built once, off to the side, from the records of a
//! document, and is never changed afterwards. The store holds at most one
//! snapshot and replaces it as a whole. A lookup takes the two tokens in
//! either order. Where several records hold the same two tokens, the one
//! that comes first in the snapshot answers.
//!
//! A snapshot keeps, beside each record, the canonical form of its pair of
//! tokens, and an index over those keys. A lookup puts the two tokens it
//! is given in canonical form and asks the index.

use crate::index::{keys_view, PairIndex};
use crate::pair_key::{law_normalize_decides_same_pair, normalize, normalize_spec, same_pair};
use crate::record::{CombinationRecord, RecordView};
use vstd::prelude::*;

verus! {

/// The record at index `i` holds the tokens `a` and `b`, in either order,
/// and no record before it does.
pub open spec fn first_match_at(
    records: Seq<RecordView>,
    a: Seq<char>,
    b: Seq<char>,
    i: int,
) -> bool {
    &&& 0 <= i < records.len()
    &&& same_pair(records[i].left, records[i].right, a, b)
    &&& forall|j: int| 0 <= j < i ==> !same_pair(records[j].left, records[j].right, a, b)
}

/// The address that the records give for the tokens `a` and `b`: that of
/// the first record that holds the two, in either order.
pub open spec fn found_url(records: Seq<RecordView>, a: Seq<char>, b: Seq<char>) -> Option<
    Seq<char>,
> {
    if exists|i: int| first_match_at(records, a, b, i) {
        Some(records[choose|i: int| first_match_at(records, a, b, i)].url)
    } else {
        None
    }
}

/// What a lookup finds.
#[derive(Debug, Clone, PartialEq, Eq)]
pub enum LookupOutcome {
    /// The store has never been given a snapshot.
    NotInitialized,
    /// The snapshot has no record for the two tokens.
    NotFound,
    /// The address of the picture.
    Found(String),
}

/// The mathematical model of a [`LookupOutcome`].
pub enum LookupView {
    NotInitialized,
    NotFound,
    Found(Seq<char>),
}

impl View for LookupOutcome {
    type V = LookupView;

    open spec fn view(&self) -> LookupView {
        match self {
            LookupOutcome::NotInitialized => LookupView::NotInitialized,
            LookupOutcome::NotFound => LookupView::NotFound,
            LookupOutcome::Found(url) => LookupView::Found(url@),
        }
    }
}

/// What a lookup of the tokens `a` and `b` finds in a store whose model is
/// `store`.
pub open spec fn lookup_spec(
    store: Option<Seq<RecordView>>,
    a: Seq<char>,
    b: Seq<char>,
) -> LookupView {
    match store {
        None => LookupView::NotInitialized,
        Some(records) => match found_url(records, a, b) {
            Some(url) => LookupView::Found(url),
            None => LookupView::NotFound,
        },
    }
}

/// At most one index is that of the first record for two tokens.
pub proof fn lemma_first_match_unique(
    records: Seq<RecordView>,
    a: Seq<char>,
    b: Seq<char>,
    i: int,
    j: int,
)
    requires
        first_match_at(records, a, b, i),
        first_match_at(records, a, b, j),
    ensures
        i == j,
{
    if i < j {
        assert(!same_pair(records[i].left, records[i].right, a, b));
    } else if j < i {
        assert(!same_pair(records[j].left, records[j].right, a, b));
    }
}

/// Where some record holds the two tokens, one of them is the first to do
/// so.
pub proof fn lemma_first_match_exists(
    records: Seq<RecordView>,
    a: Seq<char>,
    b: Seq<char>,
    i: int,
) -> (k: int)
    requires
        0 <= i < records.len(),
        same_pair(records[i].left, records[i].right, a, b),
    ensures
        first_match_at(records, a, b, k),
        k <= i,
    decreases i,
{
    if exists|j: int| 0 <= j < i && same_pair(records[j].left, records[j].right, a, b) {
        let j = choose|j: int| 0 <= j < i && same_pair(records[j].left, records[j].right, a, b);
        lemma_first_match_exists(records, a, b, j)
    } else {
        i
    }
}

/// A lookup does not depend on the order in which the two tokens are
/// given.
pub proof fn law_lookup_symmetric(store: Option<Seq<RecordView>>, a: Seq<char>, b: Seq<char>)
    ensures
        lookup_spec(store, a, b) == lookup_spec(store, b, a),
{
    if let Some(records) = store {
        assert forall|i: int| first_match_at(records, a, b, i) == first_match_at(
            records,
            b,
            a,
            i,
        ) by {
            assert forall|j: int| 0 <= j < records.len() implies same_pair(
                records[j].left,
                records[j].right,
                a,
                b,
            ) == same_pair(records[j].left, records[j].right, b, a) by {}
        }
        if exists|i: int| first_match_at(records, a, b, i) {
            let x = choose|i: int| first_match_at(records, a, b, i);
            let y = choose|i: int| first_match_at(records, b, a, i);
            assert(first_match_at(records, b, a, x));
            lemma_first_match_unique(records, a, b, x, y);
        }
    }
}

/// After the records `records` have been installed, each of them can be
/// looked up by its two tokens, in either order: the lookup finds the
/// address of the first record that holds the same two tokens.
pub proof fn law_every_record_found(records: Seq<RecordView>, i: int) -> (k: int)
    requires
        0 <= i < records.len(),
    ensures
        0 <= k <= i,
        same_pair(records[k].left, records[k].right, records[i].left, records[i].right),
        lookup_spec(Some(records), records[i].left, records[i].right) == LookupView::Found(
            records[k].url,
        ),
        lookup_spec(Some(records), records[i].right, records[i].left) == LookupView::Found(
            records[k].url,
        ),
{
    let a = records[i].left;
    let b = records[i].right;
    let k = lemma_first_match_exists(records, a, b, i);
    let c = choose|c: int| first_match_at(records, a, b, c);
    lemma_first_match_unique(records, a, b, k, c);
    law_lookup_symmetric(Some(records), a, b);
    k
}

/// No two records hold the same two tokens.
pub open spec fn pairs_distinct(records: Seq<RecordView>) -> bool {
    forall|i: int, j: int|
        0 <= i < j < records.len() ==> !same_pair(
            #[trigger] records[i].left,
            records[i].right,
            #[trigger] records[j].left,
            records[j].right,
        )
}

/// After records of which no two hold the same two tokens have been
/// installed, a lookup by the tokens of any of them, in either order,
/// finds the address of that very record.
pub proof fn law_replace_all_keeps_every_record(records: Seq<RecordView>, i: int)
    requires
        pairs_distinct(records),
        0 <= i < records.len(),
    ensures
        lookup_spec(Some(records), records[i].left, records[i].right) == LookupView::Found(
            records[i].url,
        ),
        lookup_spec(Some(records), records[i].right, records[i].left) == LookupView::Found(
            records[i].url,
        ),
{
    let k = law_every_record_found(records, i);
    if k < i {
        assert(!same_pair(records[k].left, records[k].right, records[i].left, records[i].right));
    }
}

/// A lookup finds nothing but what was installed: an address that is found
/// is that of a record of the snapshot that holds the two tokens, and
/// where no record holds them nothing is found.
pub proof fn law_only_installed_records_found(records: Seq<RecordView>, a: Seq<char>, b: Seq<char>)
    ensures
        lookup_spec(Some(records), a, b) matches LookupView::Found(url) ==> exists|i: int|
            0 <= i < records.len() && same_pair(
                #[trigger] records[i].left,
                records[i].right,
                a,
                b,
            ) && records[i].url == url,
        lookup_spec(Some(records), a, b) == LookupView::NotFound <==> forall|i: int|
            0 <= i < records.len() ==> !same_pair(
                #[trigger] records[i].left,
                records[i].right,
                a,
                b,
            ),
        !(lookup_spec(Some(records), a, b) is NotInitialized),
{
    if exists|i: int| first_match_at(records, a, b, i) {
        let c = choose|i: int| first_match_at(records, a, b, i);
        assert(same_pair(records[c].left, records[c].right, a, b));
    } else {
        assert forall|i: int| 0 <= i < records.len() implies !same_pair(
            #[trigger] records[i].left,
            records[i].right,
            a,
            b,
        ) by {
            if same_pair(records[i].left, records[i].right, a, b) {
                let k = lemma_first_match_exists(records, a, b, i);
            }
        }
    }
}

/// A list of records with, for each of them, the canonical form of its
/// pair of tokens, and the index over those keys.
#[derive(Debug)]
pub struct Snapshot {
    records: Vec<CombinationRecord>,
    keys: Vec<(String, String)>,
    index: PairIndex,
}

impl View for Snapshot {
    type V = Seq<RecordView>;

    closed spec fn view(&self) -> Seq<RecordView> {
        self.records.deep_view()
    }
}

impl Snapshot {
    /// Every record has its key, the key is the canonical form of the
    /// record's pair, and the index is that of the keys.
    #[verifier::type_invariant]
    closed spec fn keyed(&self) -> bool {
        &&& self.keys@.len() == self.records@.len()
        &&& forall|i: int|
            0 <= i < self.records@.len() ==> (#[trigger] self.keys@[i].0@, self.keys@[i].1@)
                == normalize_spec(self.records@[i].left_emoji@, self.records@[i].right_emoji@)
        &&& self.index.indexes(keys_view(self.keys@))
    }

    /// The snapshot of the records given, in their order.
    pub fn build(records: Vec<CombinationRecord>) -> (r: Snapshot)
        ensures
            r@ == records.deep_view(),
    {
        let mut keys: Vec<(String, String)> = Vec::new();
        let mut i: usize = 0;
        while i < records.len()
            invariant
                i <= records.len(),
                keys@.len() == i,
                forall|j: int|
                    0 <= j < i ==> (#[trigger] keys@[j].0@, keys@[j].1@) == normalize_spec(
                        records@[j].left_emoji@,
                        records@[j].right_emoji@,
                    ),
            decreases records.len() - i,
        {
            let key = normalize(records[i].left_emoji.as_str(), records[i].right_emoji.as_str());
            keys.push(key);
            i += 1;
        }
        let index = PairIndex::build(&keys);
        Snapshot { records, keys, index }
    }

    /// The number of records.
    pub fn len(&self) -> (r: usize)
        ensures
            r == self@.len(),
    {
        self.records.len()
    }

    /// The records, in their order.
    pub fn records(&self) -> (r: &Vec<CombinationRecord>)
        ensures
            r.deep_view() == self@,
    {
        &self.records
    }

    /// The address that the snapshot gives for the tokens `a` and `b`.
    pub fn lookup(&self, a: &str, b: &str) -> (r: Option<String>)
        ensures
            match r {
                Some(url) => found_url(self@, a@, b@) == Some(url@),
                None => found_url(self@, a@, b@) is None,
            },
    {
        proof {
            use_type_invariant(self);
        }
        let key = normalize(a, b);
        let ghost model = self@;
        let ghost keys = keys_view(self.keys@);
        proof {
            assert forall|j: int| 0 <= j < model.len() implies (#[trigger] keys[j] == (
                key.0@,
                key.1@,
            )) == same_pair(model[j].left, model[j].right, a@, b@) by {
                law_normalize_decides_same_pair(model[j].left, model[j].right, a@, b@);
                assert(model[j] == self.records@[j]@);
                assert(keys[j] == (self.keys@[j].0@, self.keys@[j].1@));
            }
        }
        match self.index.first(&self.keys, key.0.as_str(), key.1.as_str()) {
            Some(i) => {
                proof {
                    assert(keys[i as int] == (key.0@, key.1@));
                    assert forall|j: int| 0 <= j < i implies !same_pair(
                        model[j].left,
                        model[j].right,
                        a@,
                        b@,
                    ) by {
                        assert(keys[j] != (key.0@, key.1@));
                    }
                    assert(first_match_at(model, a@, b@, i as int));
                    let c = choose|c: int| first_match_at(model, a@, b@, c);
                    lemma_first_match_unique(model, a@, b@, i as int, c);
                    assert(model[i as int] == self.records@[i as int]@);
                }
                Some(self.records[i].image_url.clone())
            },
            None => {
                assert forall|c: int| !first_match_at(model, a@, b@, c) by {
                    if 0 <= c < model.len() {
                        assert(keys[c] != (key.0@, key.1@));
                    }
                }
                None
            },
        }
    }
}

/// The store: no snapshot at first, then always the one installed last.
#[derive(Debug)]
pub struct MappingStore {
    current: Option<Snapshot>,
}

impl View for MappingStore {
    type V = Option<Seq<RecordView>>;

    closed spec fn view(&self) -> Option<Seq<RecordView>> {
        match self.current {
            Some(snapshot) => Some(snapshot@),
            None => None,
        }
    }
}

impl MappingStore {
    /// A store that has not been given a snapshot.
    pub fn new() -> (r: MappingStore)
        ensures
            r@ is None,
    {
        MappingStore { current: None }
    }

    /// Whether the store has been given a snapshot.
    pub fn is_initialized(&self) -> (r: bool)
        ensures
            r == self@ is Some,
    {
        self.current.is_some()
    }

    /// The number of records in the current snapshot, if there is one.
    pub fn record_count(&self) -> (r: Option<usize>)
        ensures
            match r {
                Some(n) => self@ is Some && n == self@->Some_0.len(),
                None => self@ is None,
            },
    {
        match &self.current {
            Some(snapshot) => Some(snapshot.len()),
            None => None,
        }
    }

    /// Looks the tokens `a` and `b` up, in either order.
    pub fn lookup(&self, a: &str, b: &str) -> (r: LookupOutcome)
        ensures
            r@ == lookup_spec(self@, a@, b@),
    {
        match &self.current {
            None => LookupOutcome::NotInitialized,
            Some(snapshot) => match snapshot.lookup(a, b) {
                Some(url) => LookupOutcome::Found(url),
                None => LookupOutcome::NotFound,
            },
        }
    }

    /// Puts `snapshot` in the place of whatever the store held.
    pub fn install(&mut self, snapshot: Snapshot)
        ensures
            final(self)@ == Some(snapshot@),
    {
        self.current = Some(snapshot);
    }

    /// Discards what the store held and holds the records given instead.
    pub fn replace_all(&mut self, records: Vec<CombinationRecord>)
        ensures
            final(self)@ == Some(records.deep_view()),
    {
        self.install(Snapshot::build(records));
    }
}

} // verus!
