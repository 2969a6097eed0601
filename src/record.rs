use vstd::prelude::*;

use crate::error::StepError;
use crate::json::{find_member, member, JsonValue};

verus! {

/// One repository of a listing.
#[derive(Debug)]
pub struct Record {
    pub name: String,
    pub description: Option<String>,
    pub fork: bool,
}

/// The recognised fields of a record: name, description, fork.
pub type RecordTuple = (Seq<char>, Option<Seq<char>>, bool);

impl View for Record {
    type V = RecordTuple;

    open spec fn view(&self) -> RecordTuple {
        (
            self.name@,
            match self.description {
                Some(d) => Some(d@),
                None => None,
            },
            self.fork,
        )
    }
}

pub open spec fn name_key() -> Seq<char> {
    seq!['n', 'a', 'm', 'e']
}

pub open spec fn description_key() -> Seq<char> {
    seq!['d', 'e', 's', 'c', 'r', 'i', 'p', 't', 'i', 'o', 'n']
}

pub open spec fn fork_key() -> Seq<char> {
    seq!['f', 'o', 'r', 'k']
}

/// The record that a JSON value stands for: an object whose `name` is a
/// string, whose `fork` is a boolean, and whose `description`, if present and
/// not null, is a string. Other members are ignored.
pub open spec fn record_of(v: JsonValue) -> Option<RecordTuple> {
    match v {
        JsonValue::Object(members) => {
            let ms = members@;
            match (member(ms, name_key()), member(ms, fork_key())) {
                (Some(JsonValue::Str(n)), Some(JsonValue::Bool(f))) => {
                    match member(ms, description_key()) {
                        None => Some((n@, None, f)),
                        Some(JsonValue::Null) => Some((n@, None, f)),
                        Some(JsonValue::Str(d)) => Some((n@, Some(d@), f)),
                        Some(_) => None,
                    }
                },
                _ => None,
            }
        },
        _ => None,
    }
}

/// The records that a JSON value stands for: an array each of whose items is
/// a record. One item that is not fails the whole array.
pub open spec fn records_of(v: JsonValue) -> Option<Seq<RecordTuple>> {
    match v {
        JsonValue::Array(items) => {
            if forall|i: int| 0 <= i < items@.len() ==> (#[trigger] record_of(items@[i])) is Some {
                Some(items@.map_values(|x: JsonValue| record_of(x).unwrap()))
            } else {
                None
            }
        },
        _ => None,
    }
}

fn key(s: &str) -> (r: String)
    ensures
        r@ == s@,
{
    s.to_owned()
}

fn copy_string(s: &String) -> (r: String)
    ensures
        r@ == s@,
{
    s.clone()
}

/// Reads one record from a JSON value.
pub fn record_from_json(v: &JsonValue) -> (r: Option<Record>)
    ensures
        r is Some <==> record_of(*v) is Some,
        r matches Some(rec) ==> Some(rec@) == record_of(*v),
{
    let members = match v {
        JsonValue::Object(members) => members,
        _ => return None,
    };
    let name_k = key("name");
    let desc_k = key("description");
    let fork_k = key("fork");
    proof {
        reveal_strlit("name");
        reveal_strlit("description");
        reveal_strlit("fork");
        assert(name_k@ =~= name_key());
        assert(desc_k@ =~= description_key());
        assert(fork_k@ =~= fork_key());
    }
    let name = match find_member(members, &name_k) {
        Some(JsonValue::Str(n)) => copy_string(n),
        _ => return None,
    };
    let fork = match find_member(members, &fork_k) {
        Some(JsonValue::Bool(f)) => *f,
        _ => return None,
    };
    let description = match find_member(members, &desc_k) {
        None => None,
        Some(JsonValue::Null) => None,
        Some(JsonValue::Str(d)) => Some(copy_string(d)),
        Some(_) => return None,
    };
    Some(Record { name, description, fork })
}

/// Structured decode of a JSON value: all its records, or `SchemaError` when
/// it is not an array of records.
pub fn records_from_json(v: &JsonValue) -> (r: Result<Vec<Record>, StepError>)
    ensures
        records_of(*v) is None ==> r == Err::<Vec<Record>, StepError>(StepError::SchemaError),
        records_of(*v) matches Some(rs) ==> r matches Ok(out) && out@.map_values(|x: Record| x@) == rs,
{
    match v {
        JsonValue::Array(items) => {
            let mut out: Vec<Record> = Vec::new();
            let mut i: usize = 0;
            while i < items.len()
                invariant
                    *v == JsonValue::Array(*items),
                    i <= items@.len(),
                    out@.len() == i,
                    forall|j: int| 0 <= j < i ==> (#[trigger] record_of(items@[j])) is Some,
                    forall|j: int| 0 <= j < i ==> Some(#[trigger] out@[j]@) == record_of(items@[j]),
                decreases items@.len() - i,
            {
                match record_from_json(&items[i]) {
                    Some(rec) => out.push(rec),
                    None => {
                        assert(record_of(items@[i as int]) is None);
                        return Err(StepError::SchemaError);
                    },
                }
                i = i + 1;
            }
            assert(out@.map_values(|x: Record| x@) =~= items@.map_values(|x: JsonValue| record_of(x).unwrap()));
            Ok(out)
        },
        _ => Err(StepError::SchemaError),
    }
}

/// Re-encodes one record as a JSON object with its three recognised members;
/// an absent description becomes null.
pub fn record_to_json(rec: &Record) -> (j: JsonValue)
    ensures
        record_of(j) == Some(rec@),
{
    let description = match &rec.description {
        Some(d) => JsonValue::Str(copy_string(d)),
        None => JsonValue::Null,
    };
    let mut members: Vec<(String, JsonValue)> = Vec::new();
    members.push((key("name"), JsonValue::Str(copy_string(&rec.name))));
    members.push((key("description"), description));
    members.push((key("fork"), JsonValue::Bool(rec.fork)));
    proof {
        reveal_strlit("name");
        reveal_strlit("description");
        reveal_strlit("fork");
        let ms = members@;
        assert(ms[0].0@ =~= name_key());
        assert(ms[1].0@ =~= description_key());
        assert(ms[2].0@ =~= fork_key());
        assert(name_key()[0] != fork_key()[0]);
        assert(description_key()[0] != fork_key()[0]);
        assert(name_key()[0] != description_key()[0]);
        assert(ms.drop_last() =~= ms.take(2));
        assert(ms.take(2).drop_last() =~= ms.take(1));
        assert(ms.take(1).drop_last() =~= ms.take(0));
        assert(member(ms, fork_key()) == Some(ms[2].1));
        assert(ms.last().0@ != description_key());
        assert(member(ms, description_key()) == member(ms.take(2), description_key()));
        assert(ms.take(2).last() == ms[1]);
        assert(member(ms, description_key()) == Some(ms[1].1));
        assert(ms.last().0@ != name_key());
        assert(member(ms, name_key()) == member(ms.take(2), name_key()));
        assert(ms.take(2).last().0@ != name_key());
        assert(ms.take(1).last() == ms[0]);
        assert(member(ms.take(2), name_key()) == member(ms.take(1), name_key()));
        assert(member(ms, name_key()) == Some(ms[0].1));
    }
    JsonValue::Object(members)
}

/// Re-encodes records as a JSON array of objects, one for each record in
/// order. Structured decode of the result gives back the same records.
pub fn records_to_json(recs: &Vec<Record>) -> (j: JsonValue)
    ensures
        records_of(j) == Some(recs@.map_values(|x: Record| x@)),
{
    let mut items: Vec<JsonValue> = Vec::new();
    let mut i: usize = 0;
    while i < recs.len()
        invariant
            i <= recs@.len(),
            items@.len() == i,
            forall|k: int| 0 <= k < i ==> record_of(#[trigger] items@[k]) == Some(recs@[k]@),
        decreases recs@.len() - i,
    {
        items.push(record_to_json(&recs[i]));
        i = i + 1;
    }
    let j = JsonValue::Array(items);
    assert(items@.map_values(|x: JsonValue| record_of(x).unwrap()) =~= recs@.map_values(|x: Record| x@));
    j
}

} // verus!
