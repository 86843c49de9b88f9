use crate::instruction_parser::{read_record_from, record_of, ReadRecord, Record};
use crate::json::{holds_items, json_text_value, lemma_view_array, parse_json, Json, JsonValue};
use crate::text::str_eq;
use crate::types::{ParseErrorKind, ParseFault, ParseInsError};
use vstd::prelude::*;

verus! {

/// The map that the first `n` assignments make: a later assignment of a key
/// takes the place of an earlier one.
pub open spec fn assignments(entries: Seq<(String, String)>, n: nat) -> Map<Seq<char>, Seq<char>>
    decreases n,
{
    if n == 0 {
        Map::empty()
    } else {
        assignments(entries, (n - 1) as nat).insert(entries[n - 1].0@, entries[n - 1].1@)
    }
}

/// Whether no mnemonic is assigned twice.
pub open spec fn distinct_keys(entries: Seq<(String, String)>) -> bool {
    forall|i: int, j: int|
        0 <= i < j < entries.len() ==> (#[trigger] entries[i]).0@ != (#[trigger] entries[j]).0@
}

/// The group of each mnemonic. Every mnemonic has at most one group: the
/// map holds one assignment for it, and a new one takes the place of the old.
#[derive(Debug)]
pub struct GroupMap {
    entries: Vec<(String, String)>,
}

impl View for GroupMap {
    type V = Map<Seq<char>, Seq<char>>;

    closed spec fn view(&self) -> Map<Seq<char>, Seq<char>> {
        assignments(self.entries@, self.entries@.len())
    }
}

proof fn lemma_assignments_prefix(
    longer: Seq<(String, String)>,
    shorter: Seq<(String, String)>,
    n: nat,
)
    requires
        n <= shorter.len() <= longer.len(),
        forall|k: int| 0 <= k < shorter.len() ==> longer[k] == shorter[k],
    ensures
        assignments(longer, n) == assignments(shorter, n),
    decreases n,
{
    if n > 0 {
        lemma_assignments_prefix(longer, shorter, (n - 1) as nat);
    }
}

proof fn lemma_assignments_replace(
    entries: Seq<(String, String)>,
    i: int,
    pair: (String, String),
    n: nat,
)
    requires
        0 <= i < entries.len(),
        n <= entries.len(),
        pair.0@ == entries[i].0@,
        distinct_keys(entries),
    ensures
        assignments(entries.update(i, pair), n) == (if n > i {
            assignments(entries, n).insert(pair.0@, pair.1@)
        } else {
            assignments(entries, n)
        }),
    decreases n,
{
    if n > 0 {
        lemma_assignments_replace(entries, i, pair, (n - 1) as nat);
        let earlier = assignments(entries, (n - 1) as nat);
        if n - 1 == i {
            assert(earlier.insert(pair.0@, pair.1@) =~= earlier.insert(
                entries[i].0@,
                entries[i].1@,
            ).insert(pair.0@, pair.1@));
        } else if n - 1 > i {
            let last = entries[n - 1];
            assert(last.0@ != entries[i].0@);
            assert(earlier.insert(pair.0@, pair.1@).insert(last.0@, last.1@) =~= earlier.insert(
                last.0@,
                last.1@,
            ).insert(pair.0@, pair.1@));
        }
    }
}

proof fn lemma_assignments_keys(entries: Seq<(String, String)>, n: nat)
    requires
        n <= entries.len(),
        distinct_keys(entries),
    ensures
        assignments(entries, n).dom().finite(),
        assignments(entries, n).dom().len() == n,
        forall|key: Seq<char>|
            assignments(entries, n).contains_key(key) ==> exists|k: int|
                0 <= k < n && (#[trigger] entries[k]).0@ == key,
    decreases n,
{
    if n > 0 {
        lemma_assignments_keys(entries, (n - 1) as nat);
        let earlier = assignments(entries, (n - 1) as nat);
        let last = entries[n - 1];
        if earlier.contains_key(last.0@) {
            let k = choose|k: int| 0 <= k < n - 1 && (#[trigger] entries[k]).0@ == last.0@;
            assert(entries[k].0@ != entries[n - 1].0@);
        }
        assert(assignments(entries, n).dom() =~= earlier.dom().insert(last.0@));
        assert forall|key: Seq<char>| assignments(entries, n).contains_key(key) implies exists|
            k: int,
        |
            0 <= k < n && (#[trigger] entries[k]).0@ == key by {
            if key == last.0@ {
                assert(entries[n - 1].0@ == key);
            } else {
                assert(earlier.contains_key(key));
                let k = choose|k: int| 0 <= k < n - 1 && (#[trigger] entries[k]).0@ == key;
                assert(entries[k].0@ == key);
            }
        }
    }
}

impl GroupMap {
    #[verifier::type_invariant]
    spec fn no_mnemonic_twice(self) -> bool {
        distinct_keys(self.entries@)
    }

    /// A map in which no mnemonic has a group.
    pub fn new() -> (r: GroupMap)
        ensures
            r@ == Map::<Seq<char>, Seq<char>>::empty(),
    {
        GroupMap { entries: Vec::new() }
    }

    /// The number of mnemonics that have a group.
    pub fn len(&self) -> (n: usize)
        ensures
            self@.dom().finite(),
            n == self@.dom().len(),
    {
        proof {
            use_type_invariant(self);
            lemma_assignments_keys(self.entries@, self.entries@.len());
        }
        self.entries.len()
    }

    fn position(&self, mnemonic: &str) -> (r: Option<usize>)
        ensures
            match r {
                Some(i) => i < self.entries@.len() && self.entries@[i as int].0@ == mnemonic@,
                None => forall|k: int|
                    0 <= k < self.entries@.len() ==> (#[trigger] self.entries@[k]).0@
                        != mnemonic@,
            },
    {
        let mut i: usize = 0;
        while i < self.entries.len()
            invariant
                i <= self.entries@.len(),
                forall|k: int| 0 <= k < i ==> (#[trigger] self.entries@[k]).0@ != mnemonic@,
            decreases self.entries@.len() - i,
        {
            if str_eq(self.entries[i].0.as_str(), mnemonic) {
                return Some(i);
            }
            i = i + 1;
        }
        None
    }

    /// Assigns a group to a mnemonic. An earlier assignment of the mnemonic
    /// gives way: the map never holds a mnemonic twice.
    pub fn insert(&mut self, mnemonic: String, group: String)
        ensures
            final(self)@ == old(self)@.insert(mnemonic@, group@),
    {
        proof {
            use_type_invariant(&*self);
        }
        let ghost before = self.entries@;
        let found = self.position(mnemonic.as_str());
        let mut entries: Vec<(String, String)> = Vec::new();
        std::mem::swap(&mut self.entries, &mut entries);
        match found {
            Some(i) => {
                let ghost pair = (mnemonic, group);
                proof {
                    lemma_assignments_replace(before, i as int, pair, before.len());
                }
                entries.set(i, (mnemonic, group));
            },
            None => {
                entries.push((mnemonic, group));
                proof {
                    lemma_assignments_prefix(entries@, before, before.len());
                }
            },
        }
        assert(distinct_keys(entries@));
        std::mem::swap(&mut self.entries, &mut entries);
    }

    /// The group of a mnemonic, if it has one.
    pub fn get(&self, mnemonic: &str) -> (r: Option<&String>)
        ensures
            match r {
                Some(group) => self@.contains_key(mnemonic@) && self@[mnemonic@] == group@,
                None => !self@.contains_key(mnemonic@),
            },
    {
        let mut i: usize = self.entries.len();
        while i > 0
            invariant
                i <= self.entries@.len(),
                self@.contains_key(mnemonic@) == assignments(self.entries@, i as nat).contains_key(
                    mnemonic@,
                ),
                self@.contains_key(mnemonic@) ==> self@[mnemonic@] == assignments(
                    self.entries@,
                    i as nat,
                )[mnemonic@],
            decreases i,
        {
            i = i - 1;
            if str_eq(self.entries[i].0.as_str(), mnemonic) {
                return Some(&self.entries[i].1);
            }
        }
        None
    }
}

/// Whether every value of a list is a string.
pub open spec fn all_strings(items: Seq<Json>) -> bool {
    forall|i: int| 0 <= i < items.len() ==> #[trigger] items[i] is String
}

/// The map after the first `n` mnemonics of a list have been assigned to a group.
pub open spec fn assigned(
    items: Seq<Json>,
    n: nat,
    group: Seq<char>,
    map: Map<Seq<char>, Seq<char>>,
) -> Map<Seq<char>, Seq<char>>
    decreases n,
{
    if n == 0 {
        map
    } else {
        assigned(items, (n - 1) as nat, group, map).insert(items[n - 1]->String_0, group)
    }
}

/// The map after a group's list of mnemonics has been read: a list of
/// strings, each of which is assigned to the group.
pub open spec fn group_of(j: Json, group: Seq<char>, map: Map<Seq<char>, Seq<char>>) -> Result<
    Map<Seq<char>, Seq<char>>,
    ParseFault,
> {
    match j {
        Json::Array(items) => if all_strings(items) {
            Ok(assigned(items, items.len(), group, map))
        } else {
            Err(ParseFault::of(ParseErrorKind::UnexpectedType))
        },
        _ => Err(ParseFault::of(ParseErrorKind::UnexpectedType)),
    }
}

/// Reads the mnemonics of one group and assigns each to the group. On an
/// error nothing is assigned.
pub fn parse_group(value: &JsonValue, group: &String, map: &mut GroupMap) -> (r: Result<
    (),
    ParseInsError,
>)
    ensures
        match r {
            Ok(_) => group_of(value@, group@, old(map)@) == Ok::<
                Map<Seq<char>, Seq<char>>,
                ParseFault,
            >(final(map)@),
            Err(e) => {
                &&& group_of(value@, group@, old(map)@) == Err::<
                    Map<Seq<char>, Seq<char>>,
                    ParseFault,
                >(e@)
                &&& final(map)@ == old(map)@
            },
        },
{
    match value {
        JsonValue::Array(items) => {
            let ghost a = value@->Array_0;
            proof {
                lemma_view_array(*value);
            }
            let mut i: usize = 0;
            while i < items.len()
                invariant
                    i <= items@.len(),
                    value@ == Json::Array(a),
                    holds_items(items@, a),
                    forall|k: int| 0 <= k < i ==> #[trigger] a[k] is String,
                decreases items@.len() - i,
            {
                match &items[i] {
                    JsonValue::String(_) => {},
                    _ => {
                        assert(!(a[i as int] is String));
                        return Err(ParseInsError::new(ParseErrorKind::UnexpectedType));
                    },
                }
                i = i + 1;
            }
            i = 0;
            while i < items.len()
                invariant
                    i <= items@.len(),
                    value@ == Json::Array(a),
                    holds_items(items@, a),
                    all_strings(a),
                    map@ == assigned(a, i as nat, group@, old(map)@),
                decreases items@.len() - i,
            {
                match &items[i] {
                    JsonValue::String(ins) => {
                        map.insert(ins.clone(), group.clone());
                    },
                    _ => {},
                }
                i = i + 1;
            }
            Ok(())
        },
        _ => Err(ParseInsError::new(ParseErrorKind::UnexpectedType)),
    }
}

/// The groups of a document and the map of the mnemonics to them.
pub struct Grouping {
    pub groups: Seq<Seq<char>>,
    pub map: Map<Seq<char>, Seq<char>>,
}

impl Record for Grouping {
    open spec fn blank() -> Grouping {
        Grouping { groups: Seq::empty(), map: Map::empty() }
    }

    /// Each member of the document is a group: its key the name, its value
    /// the list of its mnemonics.
    open spec fn with_member(self, key: Seq<char>, value: Json) -> Result<Grouping, ParseFault> {
        match group_of(value, key, self.map) {
            Ok(map) => Ok(Grouping { groups: self.groups.push(key), map }),
            Err(e) => Err(e.at_field(key)),
        }
    }
}

/// The grouping that a document describes: an object of groups.
pub open spec fn grouping_of(j: Json) -> Result<Grouping, ParseFault> {
    record_of::<Grouping>(j)
}

/// The names of a list of strings.
pub open spec fn names(list: Seq<String>) -> Seq<Seq<char>> {
    Seq::new(list.len(), |i: int| list[i]@)
}

/// The groups that have been read, and the group of each mnemonic.
#[derive(Debug)]
pub struct Groups {
    pub groups: Vec<String>,
    pub map: GroupMap,
}

impl View for Groups {
    type V = Grouping;

    open spec fn view(&self) -> Grouping {
        Grouping { groups: names(self.groups@), map: self.map@ }
    }
}

impl ReadRecord for Groups {
    type Model = Grouping;

    open spec fn model(&self) -> Grouping {
        self@
    }

    fn read_member(self, key: &str, value: &JsonValue) -> (r: Result<Groups, ParseInsError>) {
        let mut read = self;
        let group = key.to_owned();
        match parse_group(value, &group, &mut read.map) {
            Ok(_) => {
                let ghost before = names(read.groups@);
                read.groups.push(group);
                assert(names(read.groups@) =~= before.push(key@));
                Ok(read)
            },
            Err(e) => Err(e.at_field(key)),
        }
    }
}

/// Reads the grouping out of a document: the groups in the order of the
/// document's members, and the group of each mnemonic.
pub fn read_instruction_groups(document: &JsonValue) -> (r: Result<
    (Vec<String>, GroupMap),
    ParseInsError,
>)
    ensures
        match r {
            Ok(pair) => grouping_of(document@) == Ok::<Grouping, ParseFault>(
                Grouping { groups: names(pair.0@), map: pair.1@ },
            ),
            Err(e) => grouping_of(document@) == Err::<Grouping, ParseFault>(e@),
        },
{
    let start = Groups { groups: Vec::new(), map: GroupMap::new() };
    assert(names(start.groups@) =~= Seq::empty());
    let read = read_record_from(document, start)?;
    Ok((read.groups, read.map))
}

/// The grouping that a text describes.
pub open spec fn loaded_groups(text: Seq<char>) -> Result<Grouping, ParseFault> {
    match json_text_value(text) {
        Some(j) => grouping_of(j),
        None => Err(ParseFault::of(ParseErrorKind::Syntax)),
    }
}

/// Reads the grouping out of the text of a document.
pub fn load_instruction_groups(text: &str) -> (r: Result<(Vec<String>, GroupMap), ParseInsError>)
    ensures
        match r {
            Ok(pair) => loaded_groups(text@) == Ok::<Grouping, ParseFault>(
                Grouping { groups: names(pair.0@), map: pair.1@ },
            ),
            Err(e) => loaded_groups(text@) == Err::<Grouping, ParseFault>(e@),
        },
{
    let document = parse_json(text)?;
    read_instruction_groups(&document)
}

} // verus!
