//! A plain model of JSON documents.
//!
//! Request bodies and the free-form configuration fields that the APIs carry
//! (`source_config`, manifests, assistant configuration) are held as values
//! of this type, so that what a request contains — and what a field lookup
//! returns — can be stated exactly. Numbers are integers: nothing this
//! library sends or reads uses fractional values.

use vstd::prelude::*;

use crate::text::str_eq;

verus! {

/// A JSON value.
pub enum Json {
    Null,
    Bool(bool),
    Int(i64),
    Str(String),
    Arr(Vec<Json>),
    Obj(Vec<(String, Json)>),
}

/// The value under `key` among `entries`: the first entry with that key
/// wins, as it does for a JSON object read front to back.
pub open spec fn lookup(entries: Seq<(String, Json)>, key: Seq<char>) -> Option<Json>
    decreases entries.len(),
{
    if entries.len() == 0 {
        None
    } else if entries[0].0@ == key {
        Some(entries[0].1)
    } else {
        lookup(entries.drop_first(), key)
    }
}

proof fn lemma_lookup_from(entries: Seq<(String, Json)>, key: Seq<char>, i: int)
    requires
        0 <= i <= entries.len(),
        forall|j: int| 0 <= j < i ==> (#[trigger] entries[j]).0@ != key,
    ensures
        lookup(entries, key) == lookup(entries.skip(i), key),
    decreases i,
{
    if i > 0 {
        lemma_lookup_from(entries.drop_first(), key, i - 1);
        assert(entries.drop_first().skip(i - 1) =~= entries.skip(i));
    } else {
        assert(entries.skip(0) =~= entries);
    }
}

impl Json {
    /// The value under `key`, when this value is an object that has it.
    pub open spec fn get_spec(&self, key: Seq<char>) -> Option<Json> {
        match self {
            Json::Obj(entries) => lookup(entries@, key),
            _ => None,
        }
    }

    /// The character sequence of a string value.
    pub open spec fn str_of(&self) -> Option<Seq<char>> {
        match self {
            Json::Str(s) => Some(s@),
            _ => None,
        }
    }

    /// The string under `key`, when this value is an object whose `key`
    /// entry is a string.
    pub open spec fn str_under(&self, key: Seq<char>) -> Option<Seq<char>> {
        match self.get_spec(key) {
            Some(v) => v.str_of(),
            None => None,
        }
    }

    /// The keys of an object value, in order; empty for anything else.
    pub open spec fn keys(&self) -> Seq<Seq<char>> {
        match self {
            Json::Obj(entries) => entries@.map_values(|e: (String, Json)| e.0@),
            _ => Seq::empty(),
        }
    }

    /// Whether the entry under `key` is a JSON null.
    pub open spec fn null_under(&self, key: Seq<char>) -> bool {
        self.get_spec(key) matches Some(v) && v is Null
    }

    /// The boolean under `key`, when there is one.
    pub open spec fn bool_under(&self, key: Seq<char>) -> Option<bool> {
        match self.get_spec(key) {
            Some(v) => match v {
                Json::Bool(b) => Some(b),
                _ => None,
            },
            None => None,
        }
    }

    /// The integer under `key`, when there is one.
    pub open spec fn int_under(&self, key: Seq<char>) -> Option<int> {
        match self.get_spec(key) {
            Some(v) => match v {
                Json::Int(n) => Some(n as int),
                _ => None,
            },
            None => None,
        }
    }

    /// The elements of an array of strings, when this value is one.
    pub open spec fn strings_of(&self) -> Option<Seq<Seq<char>>> {
        match self {
            Json::Arr(items) => {
                if forall|i: int| 0 <= i < items@.len() ==> (#[trigger] items@[i]) is Str {
                    Some(items@.map_values(|v: Json| v.str_of()->0))
                } else {
                    None
                }
            },
            _ => None,
        }
    }

    /// The string-array under `key`, when there is one.
    pub open spec fn strings_under(&self, key: Seq<char>) -> Option<Seq<Seq<char>>> {
        match self.get_spec(key) {
            Some(v) => v.strings_of(),
            None => None,
        }
    }

    /// The entries of an object all of whose values are strings, in order.
    pub open spec fn str_entries(&self) -> Option<Seq<(Seq<char>, Seq<char>)>> {
        match self {
            Json::Obj(entries) => {
                if forall|i: int| 0 <= i < entries@.len() ==> (#[trigger] entries@[i]).1 is Str {
                    Some(
                        entries@.map_values(|e: (String, Json)| (e.0@, e.1.str_of()->0)),
                    )
                } else {
                    None
                }
            },
            _ => None,
        }
    }

    /// Look up `key` in an object value.
    pub fn get<'a>(&'a self, key: &str) -> (r: Option<&'a Json>)
        ensures
            match r {
                Some(v) => self.get_spec(key@) == Some(*v),
                None => self.get_spec(key@) is None,
            },
    {
        match self {
            Json::Obj(entries) => {
                let mut i: usize = 0;
                while i < entries.len()
                    invariant
                        i <= entries@.len(),
                        self.get_spec(key@) == lookup(entries@, key@),
                        forall|j: int| 0 <= j < i ==> (#[trigger] entries@[j]).0@ != key@,
                    decreases entries@.len() - i,
                {
                    let pair = &entries[i];
                    if str_eq(pair.0.as_str(), key) {
                        proof {
                            lemma_lookup_from(entries@, key@, i as int);
                            let rest = entries@.skip(i as int);
                            assert(rest[0] == entries@[i as int]);
                            assert(lookup(rest, key@) == Some(entries@[i as int].1));
                        }
                        return Some(&pair.1);
                    }
                    i = i + 1;
                }
                proof {
                    lemma_lookup_from(entries@, key@, entries@.len() as int);
                }
                None
            },
            _ => None,
        }
    }

    /// Look up `key` and return its string value, when there is one.
    pub fn get_str(&self, key: &str) -> (r: Option<String>)
        ensures
            match r {
                Some(s) => self.str_under(key@) == Some(s@),
                None => self.str_under(key@) is None,
            },
    {
        match self.get(key) {
            Some(v) => match v {
                Json::Str(s) => Some(s.clone()),
                _ => None,
            },
            None => None,
        }
    }

    /// Whether this value is an object with an entry under `key`.
    pub fn has_key(&self, key: &str) -> (r: bool)
        ensures
            r == (self.get_spec(key@) is Some),
    {
        match self.get(key) {
            Some(_) => true,
            None => false,
        }
    }
}

/// Build a JSON object whose values are all strings, keeping the given
/// entry order.
pub fn string_object(pairs: Vec<(String, String)>) -> (r: Json)
    ensures
        r.str_entries() == Some(pairs@.map_values(|p: (String, String)| (p.0@, p.1@))),
{
    let ghost orig = pairs@;
    let mut input = pairs;
    let mut out: Vec<(String, Json)> = Vec::new();
    while input.len() > 0
        invariant
            orig =~= orig.take(out@.len() as int) + input@,
            out@.len() <= orig.len(),
            forall|i: int|
                0 <= i < out@.len() ==> (#[trigger] out@[i]) == (orig[i].0, Json::Str(orig[i].1)),
        decreases input.len(),
    {
        let p = input.remove(0);
        proof {
            assert(p == orig[out@.len() as int]);
        }
        out.push((p.0, Json::Str(p.1)));
    }
    proof {
        assert(out@.len() == orig.len());
        assert(forall|i: int| 0 <= i < out@.len() ==> (#[trigger] out@[i]).1 is Str);
        assert(out@.map_values(|e: (String, Json)| (e.0@, e.1.str_of()->0)) =~= orig.map_values(
            |p: (String, String)| (p.0@, p.1@),
        ));
    }
    Json::Obj(out)
}

/// Build a JSON array of strings.
pub fn string_array(items: Vec<String>) -> (r: Json)
    ensures
        r.strings_of() == Some(items@.map_values(|s: String| s@)),
{
    let ghost orig = items@;
    let mut input = items;
    let mut out: Vec<Json> = Vec::new();
    while input.len() > 0
        invariant
            orig =~= orig.take(out@.len() as int) + input@,
            out@.len() <= orig.len(),
            forall|i: int| 0 <= i < out@.len() ==> (#[trigger] out@[i]) == Json::Str(orig[i]),
        decreases input.len(),
    {
        let s = input.remove(0);
        proof {
            assert(s == orig[out@.len() as int]);
        }
        out.push(Json::Str(s));
    }
    proof {
        assert(out@.len() == orig.len());
        assert(forall|i: int| 0 <= i < out@.len() ==> (#[trigger] out@[i]) is Str);
        assert(out@.map_values(|v: Json| v.str_of()->0) =~= orig.map_values(|s: String| s@));
    }
    Json::Arr(out)
}

} // verus!
