//! The published document, and the records it lists.
//!
//! The document is a JSON object. Its member `data` is an object with one
//! entry for each base emoji. An entry is an object that names its emoji
//! in the member `emoji` and holds, in the member `combinations`, an
//! object of groups; each group is an array of combinations. A
//! combination gives its two tokens in `leftEmoji` and `rightEmoji` and
//! the address of its picture in `gStaticUrl`.
//!
//! Reading is lenient and never fails. Where the document, an entry or a
//! group does not have the expected form, it yields no records. A text
//! that a combination lacks, or gives as something other than a string, is
//! read as the empty text, and the record is kept.

use crate::json::{decode_json, parsed_json, JsonTree, JsonValue};
use crate::record::{CombinationRecord, RecordView};
use crate::text::same_text;
use vstd::prelude::*;

verus! {

/// The member named `key` is at index `i` and at no lower one.
pub open spec fn named_first_at(
    members: Seq<(Seq<char>, JsonTree)>,
    key: Seq<char>,
    i: int,
) -> bool {
    &&& 0 <= i < members.len()
    &&& members[i].0 == key
    &&& forall|j: int| 0 <= j < i ==> members[j].0 != key
}

/// The value of the first member named `key`.
pub open spec fn first_named(members: Seq<(Seq<char>, JsonTree)>, key: Seq<char>) -> Option<
    JsonTree,
> {
    if exists|i: int| named_first_at(members, key, i) {
        Some(members[choose|i: int| named_first_at(members, key, i)].1)
    } else {
        None
    }
}

impl JsonTree {
    /// The member named `key`, where this is an object that has one.
    pub open spec fn member(self, key: Seq<char>) -> Option<JsonTree> {
        match self {
            JsonTree::Object(members) => first_named(members, key),
            _ => None,
        }
    }

    /// The text of the member named `key`, where this is an object whose
    /// member of that name is a string; the empty text otherwise.
    pub open spec fn text_or_empty(self, key: Seq<char>) -> Seq<char> {
        match self.member(key) {
            Some(JsonTree::Text(s)) => s,
            _ => Seq::empty(),
        }
    }
}

/// The record that a combination of the entry for `base` stands for.
pub open spec fn record_of(base: Seq<char>, combination: JsonTree) -> RecordView {
    RecordView {
        base,
        left: combination.text_or_empty("leftEmoji"@),
        right: combination.text_or_empty("rightEmoji"@),
        url: combination.text_or_empty("gStaticUrl"@),
    }
}

/// The records of one group of the entry for `base`, in the order of the
/// group. A group that is not an array has none.
pub open spec fn group_records(base: Seq<char>, group: JsonTree) -> Seq<RecordView> {
    match group {
        JsonTree::Array(items) => items.map_values(|c: JsonTree| record_of(base, c)),
        _ => Seq::empty(),
    }
}

/// The records of all the groups of the entry for `base`, group after
/// group.
pub open spec fn groups_records(base: Seq<char>, groups: Seq<(Seq<char>, JsonTree)>) -> Seq<
    RecordView,
> {
    groups.map_values(|g: (Seq<char>, JsonTree)| group_records(base, g.1)).flatten()
}

/// The records of one entry. An entry has records only if its member
/// `emoji` is a string and its member `combinations` is an object.
pub open spec fn entry_records(entry: JsonTree) -> Seq<RecordView> {
    match (entry.member("emoji"@), entry.member("combinations"@)) {
        (Some(JsonTree::Text(base)), Some(JsonTree::Object(groups))) => groups_records(
            base,
            groups,
        ),
        _ => Seq::empty(),
    }
}

/// The records of all the entries given, entry after entry.
pub open spec fn entries_records(entries: Seq<(Seq<char>, JsonTree)>) -> Seq<RecordView> {
    entries.map_values(|e: (Seq<char>, JsonTree)| entry_records(e.1)).flatten()
}

/// The records that a document lists, in the order of the document. A
/// document whose member `data` is not an object lists none.
pub open spec fn document_records(document: JsonTree) -> Seq<RecordView> {
    match document.member("data"@) {
        Some(JsonTree::Object(entries)) => entries_records(entries),
        _ => Seq::empty(),
    }
}

/// The models of the members of an object.
pub open spec fn members_view(members: Seq<(String, JsonValue)>) -> Seq<(Seq<char>, JsonTree)> {
    members.map_values(|m: (String, JsonValue)| (m.0@, m.1@))
}

/// The models of the items of an array.
pub open spec fn items_view(items: Seq<JsonValue>) -> Seq<JsonTree> {
    items.map_values(|v: JsonValue| v@)
}

impl JsonValue {
    /// The members of this value, where it is an object.
    pub fn as_object(&self) -> (r: Option<&Vec<(String, JsonValue)>>)
        ensures
            match r {
                Some(members) => self@ == JsonTree::Object(members_view(members@)),
                None => !(self@ is Object),
            },
    {
        match self {
            JsonValue::Object(members) => {
                assert(self@->Object_0 =~= members_view(members@));
                Some(members)
            },
            _ => None,
        }
    }

    /// The items of this value, where it is an array.
    pub fn as_array(&self) -> (r: Option<&Vec<JsonValue>>)
        ensures
            match r {
                Some(items) => self@ == JsonTree::Array(items_view(items@)),
                None => !(self@ is Array),
            },
    {
        match self {
            JsonValue::Array(items) => {
                assert(self@->Array_0 =~= items_view(items@));
                Some(items)
            },
            _ => None,
        }
    }

    /// The text of this value, where it is a string.
    pub fn as_text(&self) -> (r: Option<&str>)
        ensures
            match r {
                Some(s) => self@ == JsonTree::Text(s@),
                None => !(self@ is Text),
            },
    {
        match self {
            JsonValue::Text(s) => Some(s.as_str()),
            _ => None,
        }
    }

    /// The member named `key`, where this value is an object that has one.
    pub fn member(&self, key: &str) -> (r: Option<&JsonValue>)
        ensures
            match r {
                Some(v) => self@.member(key@) == Some(v@),
                None => self@.member(key@) is None,
            },
    {
        match self.as_object() {
            None => None,
            Some(members) => {
                let ghost model = members_view(members@);
                let mut i: usize = 0;
                while i < members.len()
                    invariant
                        i <= members.len(),
                        model == members_view(members@),
                        self@ == JsonTree::Object(model),
                        forall|j: int| 0 <= j < i ==> model[j].0 != key@,
                    decreases members.len() - i,
                {
                    if same_text(members[i].0.as_str(), key) {
                        proof {
                            assert(named_first_at(model, key@, i as int));
                            let c = choose|c: int| named_first_at(model, key@, c);
                            assert(c == i);
                        }
                        return Some(&members[i].1);
                    }
                    i += 1;
                }
                assert(forall|c: int| !named_first_at(model, key@, c));
                None
            },
        }
    }

    /// The text of the member named `key`, where this value is an object
    /// whose member of that name is a string; the empty text otherwise.
    pub fn text_or_empty(&self, key: &str) -> (r: String)
        ensures
            r@ == self@.text_or_empty(key@),
    {
        match self.member(key) {
            None => String::new(),
            Some(v) => match v.as_text() {
                Some(s) => s.to_owned(),
                None => String::new(),
            },
        }
    }
}

/// The record that a combination of the entry for `base` stands for.
pub fn record_from(base: &str, combination: &JsonValue) -> (r: CombinationRecord)
    ensures
        r@ == record_of(base@, combination@),
{
    CombinationRecord {
        base_emoji: base.to_owned(),
        left_emoji: combination.text_or_empty("leftEmoji"),
        right_emoji: combination.text_or_empty("rightEmoji"),
        image_url: combination.text_or_empty("gStaticUrl"),
    }
}

/// Appends the records of one group of the entry for `base`.
fn append_group(base: &str, group: &JsonValue, out: &mut Vec<CombinationRecord>)
    ensures
        final(out).deep_view() == old(out).deep_view() + group_records(base@, group@),
{
    match group.as_array() {
        None => {
            assert(old(out).deep_view() + Seq::<RecordView>::empty() =~= old(out).deep_view());
        },
        Some(items) => {
            let ghost model = items_view(items@);
            let ghost records = model.map_values(|c: JsonTree| record_of(base@, c));
            let mut i: usize = 0;
            while i < items.len()
                invariant
                    i <= items.len(),
                    model == items_view(items@),
                    records == model.map_values(|c: JsonTree| record_of(base@, c)),
                    out.deep_view() == old(out).deep_view() + records.take(i as int),
                decreases items.len() - i,
            {
                let ghost before = out.deep_view();
                let record = record_from(base, &items[i]);
                out.push(record);
                proof {
                    assert(out.deep_view() =~= before.push(records[i as int]));
                    assert(records.take(i + 1) =~= records.take(i as int).push(records[i as int]));
                }
                i += 1;
            }
            assert(records.take(i as int) =~= records);
        },
    }
}

/// Appends the records of one entry.
fn append_entry(entry: &JsonValue, out: &mut Vec<CombinationRecord>)
    ensures
        final(out).deep_view() == old(out).deep_view() + entry_records(entry@),
{
    let ghost start = out.deep_view();
    let base = match entry.member("emoji") {
        None => None,
        Some(v) => v.as_text(),
    };
    let groups = match entry.member("combinations") {
        None => None,
        Some(v) => v.as_object(),
    };
    match (base, groups) {
        (Some(base), Some(groups)) => {
            let ghost model = members_view(groups@);
            let ghost parts = model.map_values(
                |g: (Seq<char>, JsonTree)| group_records(base@, g.1),
            );
            let mut i: usize = 0;
            while i < groups.len()
                invariant
                    i <= groups.len(),
                    model == members_view(groups@),
                    parts == model.map_values(
                        |g: (Seq<char>, JsonTree)| group_records(base@, g.1),
                    ),
                    out.deep_view() == start + parts.take(i as int).flatten(),
                decreases groups.len() - i,
            {
                append_group(base, &groups[i].1, out);
                proof {
                    assert(parts.take(i + 1) =~= parts.take(i as int).push(parts[i as int]));
                    parts.take(i as int).lemma_flatten_push(parts[i as int]);
                }
                i += 1;
            }
            assert(parts.take(i as int) =~= parts);
        },
        _ => {
            assert(start + Seq::<RecordView>::empty() =~= start);
        },
    }
}

/// The records that a document lists, in the order of the document.
pub fn records_in(document: &JsonValue) -> (r: Vec<CombinationRecord>)
    ensures
        r.deep_view() == document_records(document@),
{
    let mut out: Vec<CombinationRecord> = Vec::new();
    let entries = match document.member("data") {
        None => None,
        Some(v) => v.as_object(),
    };
    match entries {
        None => {
            assert(out.deep_view() =~= Seq::<RecordView>::empty());
        },
        Some(entries) => {
            let ghost model = members_view(entries@);
            let ghost parts = model.map_values(|e: (Seq<char>, JsonTree)| entry_records(e.1));
            let mut i: usize = 0;
            assert(out.deep_view() =~= parts.take(0).flatten());
            while i < entries.len()
                invariant
                    i <= entries.len(),
                    model == members_view(entries@),
                    parts == model.map_values(|e: (Seq<char>, JsonTree)| entry_records(e.1)),
                    out.deep_view() == parts.take(i as int).flatten(),
                decreases entries.len() - i,
            {
                append_entry(&entries[i].1, &mut out);
                proof {
                    assert(parts.take(i + 1) =~= parts.take(i as int).push(parts[i as int]));
                    parts.take(i as int).lemma_flatten_push(parts[i as int]);
                }
                i += 1;
            }
            assert(parts.take(i as int) =~= parts);
        },
    }
    out
}

/// The records that a document lists, read from its JSON text.
///
/// The result is `Ok` exactly where the text is JSON, and then holds the
/// records of the decoded document; otherwise it carries the decoder's
/// message.
pub fn parse_document(text: &str) -> (r: Result<Vec<CombinationRecord>, String>)
    ensures
        r is Ok <==> parsed_json(text@) is Some,
        r matches Ok(records) ==> records.deep_view() == document_records(
            parsed_json(text@)->Some_0,
        ),
{
    match decode_json(text) {
        Ok(document) => Ok(records_in(&document)),
        Err(message) => Err(message),
    }
}

} // verus!
