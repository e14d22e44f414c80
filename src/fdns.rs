//! The filter configuration, the decision on one record, and the filtering of
//! a batch of lines.

use crate::pattern::{regex_finds, regex_is_match, Pattern};
use crate::record::{parsed, Entry, EntryModel};
use vstd::prelude::*;

verus! {

/// The record field that the allow-list and the pattern are checked against.
#[derive(Clone, Copy, Debug, PartialEq, Eq, Structural)]
pub enum Field {
    Name,
    Value,
}

/// The immutable configuration of one run.
pub struct Options {
    field: Field,
    regex: Pattern,
    kind: String,
    allow_list: Vec<String>,
}

/// What a configuration holds: the selected field, the pattern's source, the
/// record type to keep and the allowed suffixes (empty: no restriction).
pub struct Filter {
    pub field: Field,
    pub pattern: Seq<char>,
    pub kind: Seq<char>,
    pub allow_list: Seq<Seq<char>>,
}

impl View for Options {
    type V = Filter;

    closed spec fn view(&self) -> Filter {
        Filter {
            field: self.field,
            pattern: self.regex@,
            kind: self.kind@,
            allow_list: self.allow_list@.map_values(|s: String| s@),
        }
    }
}

/// The field of `e` that `f` selects.
pub open spec fn selected(f: Filter, e: EntryModel) -> Seq<char> {
    match f.field {
        Field::Name => e.name,
        Field::Value => e.value,
    }
}

/// Whether `d` ends with one of the suffixes in `list`.
pub open spec fn has_listed_suffix(list: Seq<Seq<char>>, d: Seq<char>) -> bool {
    exists|i: int| 0 <= i < list.len() && #[trigger] list[i].is_suffix_of(d)
}

/// An empty allow-list admits every domain; otherwise `d` needs a listed suffix.
pub open spec fn allowed(list: Seq<Seq<char>>, d: Seq<char>) -> bool {
    list.len() == 0 || has_listed_suffix(list, d)
}

/// Whether `f` keeps the record `e`: same record type, selected field allowed
/// by the allow-list, and the pattern found in the selected field.
pub open spec fn admitted(f: Filter, e: EntryModel) -> bool {
    &&& e.kind == f.kind
    &&& allowed(f.allow_list, selected(f, e))
    &&& regex_finds(f.pattern, selected(f, e))
}

/// The records of `lines` that decode and that `f` keeps, in line order.
pub open spec fn filtered(f: Filter, lines: Seq<Seq<char>>) -> Seq<EntryModel>
    decreases lines.len(),
{
    if lines.len() == 0 {
        Seq::empty()
    } else {
        let rest = filtered(f, lines.drop_last());
        match parsed(lines.last()) {
            Some(e) => if admitted(f, e) {
                rest.push(e)
            } else {
                rest
            },
            None => rest,
        }
    }
}

/// Relies on str::ends_with: whether `suffix` ends `s`.
#[verifier::external_body]
fn str_ends_with(s: &str, suffix: &str) -> (r: bool)
    ensures
        r == suffix@.is_suffix_of(s@),
{
    s.ends_with(suffix)
}

impl Options {
    /// Builds the configuration; `value` selects the value field, otherwise the name.
    pub fn new(value: bool, regex: Pattern, kind: String, allow_list: Vec<String>) -> (r: Options)
        ensures
            r@ == (Filter {
                field: if value {
                    Field::Value
                } else {
                    Field::Name
                },
                pattern: regex@,
                kind: kind@,
                allow_list: allow_list@.map_values(|s: String| s@),
            }),
    {
        let field = if value {
            Field::Value
        } else {
            Field::Name
        };
        Options { field, regex, kind, allow_list }
    }
}

/// A dump file together with the configuration it is filtered with.
pub struct Fdns {
    file: String,
    options: Options,
}

impl Fdns {
    /// The path of the dump.
    pub closed spec fn path(&self) -> Seq<char> {
        self.file@
    }

    /// The configuration the dump is filtered with.
    pub closed spec fn filter(&self) -> Filter {
        self.options@
    }

    pub fn new(file: String, options: Options) -> (r: Fdns)
        ensures
            r.path() == file@,
            r.filter() == options@,
    {
        Fdns { file, options }
    }

    /// The path of the dump.
    pub fn file(&self) -> (r: &String)
        ensures
            r@ == self.path(),
    {
        &self.file
    }

    /// Whether the allow-list admits `d`: it is empty, or `d` ends with one of its suffixes.
    pub fn is_allowed(&self, d: String) -> (r: bool)
        ensures
            r == allowed(self.filter().allow_list, d@),
    {
        let list = &self.options.allow_list;
        let ghost views = self.filter().allow_list;
        if list.len() == 0 {
            return true;
        }
        let mut i: usize = 0;
        while i < list.len()
            invariant
                i <= list.len(),
                views == list@.map_values(|s: String| s@),
                views == self.filter().allow_list,
                forall|j: int| 0 <= j < i ==> !(#[trigger] views[j]).is_suffix_of(d@),
            decreases list.len() - i,
        {
            assert(views[i as int] == list@[i as int]@);
            if str_ends_with(d.as_str(), list[i].as_str()) {
                assert(views[i as int].is_suffix_of(d@));
                return true;
            }
            i = i + 1;
        }
        false
    }

    /// Decides whether the record `e` is kept: its record type must equal the
    /// configured one, then the selected field must pass the allow-list, then
    /// the pattern must be found in it. Later stages are skipped once one fails.
    pub fn accepts(&self, e: &Entry) -> (r: bool)
        ensures
            r == admitted(self.filter(), e@),
            e@.kind != self.filter().kind ==> !r,
            e@.kind == self.filter().kind && self.filter().allow_list.len() == 0 ==> r
                == regex_finds(self.filter().pattern, selected(self.filter(), e@)),
            e@.kind == self.filter().kind && self.filter().allow_list.len() > 0 ==> r == (
            has_listed_suffix(self.filter().allow_list, selected(self.filter(), e@))
                && regex_finds(self.filter().pattern, selected(self.filter(), e@))),
    {
        if !(e.entry_kind == self.options.kind) {
            return false;
        }
        let candidate = match self.options.field {
            Field::Value => &e.value,
            Field::Name => &e.name,
        };
        if !self.is_allowed(candidate.clone()) {
            return false;
        }
        regex_is_match(&self.options.regex, candidate.as_str())
    }

    /// Decodes each line and keeps the records that `accepts` admits, in line
    /// order. Lines that do not decode are skipped.
    pub fn filter_lines(&self, lines: &Vec<String>) -> (r: Vec<Entry>)
        ensures
            r@.map_values(|e: Entry| e@) == filtered(
                self.filter(),
                lines@.map_values(|l: String| l@),
            ),
    {
        let ghost all = lines@.map_values(|l: String| l@);
        let mut kept: Vec<Entry> = Vec::new();
        let mut i: usize = 0;
        while i < lines.len()
            invariant
                i <= lines.len(),
                all == lines@.map_values(|l: String| l@),
                kept@.map_values(|e: Entry| e@) == filtered(self.filter(), all.take(i as int)),
            decreases lines.len() - i,
        {
            assert(all.take(i + 1).drop_last() =~= all.take(i as int));
            assert(all.take(i + 1).last() == lines@[i as int]@);
            match Entry::parse(lines[i].as_str()) {
                Some(e) => {
                    if self.accepts(&e) {
                        kept.push(e);
                        assert(kept@.map_values(|e: Entry| e@) =~= filtered(
                            self.filter(),
                            all.take(i as int),
                        ).push(e@));
                    }
                },
                None => {},
            }
            i = i + 1;
        }
        assert(all.take(lines.len() as int) =~= all);
        kept
    }
}

/// Joins the partial results of several workers into one, keeping every
/// record: the parts one after another, in the order given.
pub fn merge(parts: Vec<Vec<Entry>>) -> (r: Vec<Entry>)
    ensures
        r@ == parts@.map_values(|p: Vec<Entry>| p@).flatten(),
{
    let mut parts = parts;
    let ghost all = parts@.map_values(|p: Vec<Entry>| p@);
    let mut merged: Vec<Entry> = Vec::new();
    let mut i: usize = 0;
    while i < parts.len()
        invariant
            i <= parts.len(),
            parts@.len() == all.len(),
            forall|j: int| i <= j < all.len() ==> parts@[j]@ == all[j],
            merged@ == all.take(i as int).flatten(),
        decreases parts.len() - i,
    {
        let mut part: Vec<Entry> = Vec::new();
        std::mem::swap(&mut parts[i], &mut part);
        proof {
            all.take(i as int).lemma_flatten_push(all[i as int]);
            assert(all.take(i + 1) =~= all.take(i as int).push(all[i as int]));
        }
        merged.append(&mut part);
        i = i + 1;
    }
    assert(all.take(all.len() as int) =~= all);
    merged
}

} // verus!


