//! Records of a dump and the decoding of one line into a record.

use vstd::prelude::*;

verus! {

/// One observation of a dump: a queried name, its record type and the value it resolved to.
#[derive(Default, Debug, Clone, PartialEq)]
pub struct Entry {
    pub timestamp: String,
    pub name: String,
    pub entry_kind: String,
    pub value: String,
}

/// What a record holds, as character sequences.
pub struct EntryModel {
    pub timestamp: Seq<char>,
    pub name: Seq<char>,
    pub kind: Seq<char>,
    pub value: Seq<char>,
}

impl View for Entry {
    type V = EntryModel;

    open spec fn view(&self) -> EntryModel {
        EntryModel {
            timestamp: self.timestamp@,
            name: self.name@,
            kind: self.entry_kind@,
            value: self.value@,
        }
    }
}

/// The members of the JSON object that `line` holds, in the order serde_json's
/// map yields them: each key with its value when that value is a JSON string,
/// with `None` when it is any other JSON value. `None` when `line` is not a
/// JSON object.
pub uninterp spec fn json_object_members(line: Seq<char>) -> Option<
    Seq<(Seq<char>, Option<Seq<char>>)>,
>;

/// The character sequences that a list of decoded members holds.
pub open spec fn members_view(ms: Seq<(String, Option<String>)>) -> Seq<
    (Seq<char>, Option<Seq<char>>),
> {
    ms.map_values(
        |m: (String, Option<String>)|
            (
                m.0@,
                match m.1 {
                    Some(s) => Some(s@),
                    None => None,
                },
            ),
    )
}

/// The string value of the first member named `key`; `None` when there is no
/// such member or its value is not a string.
pub open spec fn member(ms: Seq<(Seq<char>, Option<Seq<char>>)>, key: Seq<char>) -> Option<
    Seq<char>,
>
    decreases ms.len(),
{
    if ms.len() == 0 {
        None
    } else if ms[0].0 == key {
        ms[0].1
    } else {
        member(ms.drop_first(), key)
    }
}

/// The record that a list of members describes: all four fields present as
/// strings, the record type under the key "type".
pub open spec fn entry_of_members(ms: Seq<(Seq<char>, Option<Seq<char>>)>) -> Option<EntryModel> {
    match (
        member(ms, "timestamp"@),
        member(ms, "name"@),
        member(ms, "type"@),
        member(ms, "value"@),
    ) {
        (Some(t), Some(n), Some(k), Some(v)) => Some(
            EntryModel { timestamp: t, name: n, kind: k, value: v },
        ),
        _ => None,
    }
}

/// The record that one line of a dump decodes to, if any.
pub open spec fn parsed(line: Seq<char>) -> Option<EntryModel> {
    match json_object_members(line) {
        Some(ms) => entry_of_members(ms),
        None => None,
    }
}

/// Relies on serde_json::from_str into a serde_json::Map<String, Value>, whose
/// members are handed out with their string values.
#[verifier::external_body]
fn decode_object(line: &str) -> (r: Option<Vec<(String, Option<String>)>>)
    ensures
        match r {
            Some(ms) => json_object_members(line@) == Some(members_view(ms@)),
            None => json_object_members(line@) is None,
        },
{
    serde_json::from_str::<serde_json::Map<String, serde_json::Value>>(line).ok().map(
        |m|
            m.into_iter().map(
                |(k, v)|
                    match v {
                        serde_json::Value::String(s) => (k, Some(s)),
                        _ => (k, None),
                    },
            ).collect(),
    )
}

/// The string value of the first member named `key`.
fn find_member(ms: &Vec<(String, Option<String>)>, key: &String) -> (r: Option<String>)
    ensures
        match r {
            Some(s) => member(members_view(ms@), key@) == Some(s@),
            None => member(members_view(ms@), key@) is None,
        },
{
    let ghost all = members_view(ms@);
    assert(all.subrange(0, all.len() as int) =~= all);
    let mut i: usize = 0;
    while i < ms.len()
        invariant
            i <= ms.len(),
            all == members_view(ms@),
            member(all, key@) == member(all.subrange(i as int, all.len() as int), key@),
        decreases ms.len() - i,
    {
        let ghost rest = all.subrange(i as int, all.len() as int);
        assert(rest.drop_first() =~= all.subrange(i + 1, all.len() as int));
        assert(rest[0] == all[i as int]);
        if ms[i].0 == *key {
            return match &ms[i].1 {
                Some(s) => Some(s.clone()),
                None => None,
            };
        }
        i = i + 1;
    }
    assert(all.subrange(i as int, all.len() as int).len() == 0);
    None
}

impl Entry {
    /// Builds a record from decoded members: `Some` exactly when "timestamp",
    /// "name", "type" and "value" are all present with string values.
    pub fn from_members(ms: &Vec<(String, Option<String>)>) -> (r: Option<Entry>)
        ensures
            match r {
                Some(e) => entry_of_members(members_view(ms@)) == Some(e@),
                None => entry_of_members(members_view(ms@)) is None,
            },
    {
        let timestamp = find_member(ms, &"timestamp".to_string());
        let name = find_member(ms, &"name".to_string());
        let entry_kind = find_member(ms, &"type".to_string());
        let value = find_member(ms, &"value".to_string());
        match (timestamp, name, entry_kind, value) {
            (Some(timestamp), Some(name), Some(entry_kind), Some(value)) => Some(
                Entry { timestamp, name, entry_kind, value },
            ),
            _ => None,
        }
    }

    /// Decodes one line of a dump. Any line that is not a JSON object with the
    /// four string fields gives `None`; no partial record is ever built.
    pub fn parse(line: &str) -> (r: Option<Entry>)
        ensures
            match r {
                Some(e) => parsed(line@) == Some(e@),
                None => parsed(line@) is None,
            },
    {
        match decode_object(line) {
            Some(ms) => Entry::from_members(&ms),
            None => None,
        }
    }
}

} // verus!
