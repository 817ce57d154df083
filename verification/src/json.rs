//! JSON values as the request-building logic sees them.
//!
//! The conversions only ever look at the top level of a JSON object: they
//! remove keys, insert keys, read a string-valued key, and ask whether a
//! value is itself an object. So a top-level object is held key by key, and
//! each value keeps exactly what is read of it; anything deeper is kept as
//! its JSON text.
use vstd::prelude::*;

verus! {

/// A JSON value below the top level of a document.
#[derive(Debug)]
pub enum JsonValue {
    /// `null`
    Null,
    /// `true` or `false`
    Bool(bool),
    /// A JSON string, held by its contents (not its escaped text).
    Str(String),
    /// A JSON object, held as its JSON text.
    Object(String),
    /// Any other JSON value (a number or an array), held as its JSON text.
    Other(String),
}

/// The mathematical model of a [`JsonValue`].
pub enum JsonValueView {
    Null,
    Bool(bool),
    Str(Seq<char>),
    Object(Seq<char>),
    Other(Seq<char>),
}

impl View for JsonValue {
    type V = JsonValueView;

    open spec fn view(&self) -> JsonValueView {
        match self {
            JsonValue::Null => JsonValueView::Null,
            JsonValue::Bool(b) => JsonValueView::Bool(*b),
            JsonValue::Str(s) => JsonValueView::Str(s@),
            JsonValue::Object(t) => JsonValueView::Object(t@),
            JsonValue::Other(t) => JsonValueView::Other(t@),
        }
    }
}

impl Clone for JsonValue {
    fn clone(&self) -> (r: Self)
        ensures
            r@ == self@,
    {
        match self {
            JsonValue::Null => JsonValue::Null,
            JsonValue::Bool(b) => JsonValue::Bool(*b),
            JsonValue::Str(s) => JsonValue::Str(s.clone()),
            JsonValue::Object(t) => JsonValue::Object(t.clone()),
            JsonValue::Other(t) => JsonValue::Other(t.clone()),
        }
    }
}

/// The value that a sequence of key/value entries gives for `key`: the
/// last entry with that key wins, as when the entries are inserted into a
/// map one after the other.
pub open spec fn lookup_entries(s: Seq<(String, JsonValue)>, key: Seq<char>) -> Option<JsonValueView>
    decreases s.len(),
{
    if s.len() == 0 {
        None
    } else if s.last().0@ == key {
        Some(s.last().1@)
    } else {
        lookup_entries(s.drop_last(), key)
    }
}

/// The map that a sequence of key/value entries stands for.
pub open spec fn entries_map(s: Seq<(String, JsonValue)>) -> Map<Seq<char>, JsonValueView> {
    Map::new(|k: Seq<char>| lookup_entries(s, k) is Some, |k: Seq<char>| lookup_entries(s, k)->0)
}

/// Entries whose keys and values have the same views give the same lookups.
proof fn lemma_lookup_by_views(s1: Seq<(String, JsonValue)>, s2: Seq<(String, JsonValue)>, key: Seq<char>)
    requires
        s1.len() == s2.len(),
        forall|i: int| 0 <= i < s1.len() ==> #[trigger] s1[i].0@ == s2[i].0@ && s1[i].1@ == s2[i].1@,
    ensures
        lookup_entries(s1, key) == lookup_entries(s2, key),
    decreases s1.len(),
{
    if s1.len() > 0 {
        assert(s1[s1.len() - 1].0@ == s2[s1.len() - 1].0@);
        lemma_lookup_by_views(s1.drop_last(), s2.drop_last(), key);
    }
}

/// Looking a key up in a sequence extended by one entry.
proof fn lemma_lookup_push(s: Seq<(String, JsonValue)>, e: (String, JsonValue), key: Seq<char>)
    ensures
        lookup_entries(s.push(e), key) == (if e.0@ == key { Some(e.1@) } else { lookup_entries(s, key) }),
{
    assert(s.push(e).drop_last() =~= s);
}

/// A JSON object, held as its top-level entries.
#[derive(Debug)]
pub struct JsonObject {
    entries: Vec<(String, JsonValue)>,
}

impl View for JsonObject {
    type V = Map<Seq<char>, JsonValueView>;

    closed spec fn view(&self) -> Map<Seq<char>, JsonValueView> {
        entries_map(self.entries@)
    }
}

impl JsonObject {
    /// An empty object.
    pub fn new() -> (r: Self)
        ensures
            r@ == Map::<Seq<char>, JsonValueView>::empty(),
    {
        let r = JsonObject { entries: Vec::new() };
        assert(r@ =~= Map::<Seq<char>, JsonValueView>::empty());
        r
    }

    /// The entries of the object, for conversion into another JSON
    /// representation; inserting them into a map in order gives the object.
    pub fn entries(&self) -> (r: &Vec<(String, JsonValue)>)
        ensures
            entries_map(r@) == self@,
    {
        &self.entries
    }

    /// Looks a key up.
    pub fn get(&self, key: &String) -> (r: Option<&JsonValue>)
        ensures
            match r {
                Some(v) => self@.contains_key(key@) && self@[key@] == v@,
                None => !self@.contains_key(key@),
            },
    {
        let n = self.entries.len();
        let mut i = n;
        assert(self.entries@.take(n as int) =~= self.entries@);
        while i > 0
            invariant
                i <= n == self.entries@.len(),
                lookup_entries(self.entries@, key@) == lookup_entries(self.entries@.take(i as int), key@),
            decreases i,
        {
            i = i - 1;
            assert(self.entries@.take(i as int).push(self.entries@[i as int]) =~= self.entries@.take(i + 1));
            proof {
                lemma_lookup_push(self.entries@.take(i as int), self.entries@[i as int], key@);
            }
            if self.entries[i].0 == *key {
                return Some(&self.entries[i].1);
            }
        }
        None
    }

    /// Removes a key, if present.
    pub fn remove(&mut self, key: &String)
        ensures
            final(self)@ == old(self)@.remove(key@),
    {
        let n = self.entries.len();
        let mut kept: Vec<(String, JsonValue)> = Vec::new();
        let mut i: usize = 0;
        while i < n
            invariant
                i <= n == self.entries@.len(),
                self.entries@ == old(self).entries@,
                forall|k: Seq<char>|
                    #[trigger] lookup_entries(kept@, k) == (if k == key@ {
                        None
                    } else {
                        lookup_entries(self.entries@.take(i as int), k)
                    }),
            decreases n - i,
        {
            let ghost before = kept@;
            assert(self.entries@.take(i as int).push(self.entries@[i as int]) =~= self.entries@.take(i + 1));
            let e = &self.entries[i];
            if e.0 != *key {
                let copy = (e.0.clone(), e.1.clone());
                kept.push(copy);
                assert forall|k: Seq<char>|
                    #[trigger] lookup_entries(kept@, k) == (if k == key@ {
                        None
                    } else {
                        lookup_entries(self.entries@.take(i + 1), k)
                    }) by {
                    lemma_lookup_push(before, copy, k);
                    lemma_lookup_push(self.entries@.take(i as int), self.entries@[i as int], k);
                }
            } else {
                assert forall|k: Seq<char>|
                    #[trigger] lookup_entries(kept@, k) == (if k == key@ {
                        None
                    } else {
                        lookup_entries(self.entries@.take(i + 1), k)
                    }) by {
                    lemma_lookup_push(self.entries@.take(i as int), self.entries@[i as int], k);
                }
            }
            i = i + 1;
        }
        assert(self.entries@.take(n as int) =~= self.entries@);
        self.entries = kept;
        assert(self@ =~= old(self)@.remove(key@));
    }

    /// Inserts a key, replacing the value it had.
    pub fn insert(&mut self, key: String, value: JsonValue)
        ensures
            final(self)@ == old(self)@.insert(key@, value@),
    {
        self.remove(&key);
        let ghost mid = self.entries@;
        let ghost old_entries = old(self).entries@;
        assert(entries_map(mid) == entries_map(old_entries).remove(key@));
        let ghost kv = key@;
        let ghost vv = value@;
        let e = (key, value);
        self.entries.push(e);
        assert forall|k: Seq<char>|
            #[trigger] lookup_entries(self.entries@, k) == (if k == kv {
                Some(vv)
            } else {
                lookup_entries(old_entries, k)
            }) by {
            lemma_lookup_push(mid, e, k);
            if k != kv {
                assert(entries_map(mid).dom().contains(k) == entries_map(old_entries).dom().contains(k));
                if entries_map(mid).dom().contains(k) {
                    assert(entries_map(mid)[k] == entries_map(old_entries)[k]);
                }
            }
        }
        assert(self@ =~= old(self)@.insert(kv, vv));
    }
}

impl Clone for JsonObject {
    fn clone(&self) -> (r: Self)
        ensures
            r@ == self@,
    {
        let n = self.entries.len();
        let mut out: Vec<(String, JsonValue)> = Vec::new();
        let mut i: usize = 0;
        while i < n
            invariant
                i <= n == self.entries@.len(),
                out@.len() == i,
                forall|j: int|
                    0 <= j < i ==> #[trigger] out@[j].0@ == self.entries@[j].0@ && out@[j].1@
                        == self.entries@[j].1@,
            decreases n - i,
        {
            let e = &self.entries[i];
            out.push((e.0.clone(), e.1.clone()));
            i = i + 1;
        }
        let r = JsonObject { entries: out };
        assert forall|k: Seq<char>| lookup_entries(r.entries@, k) == lookup_entries(self.entries@, k) by {
            lemma_lookup_by_views(r.entries@, self.entries@, k);
        }
        assert(r@ =~= self@);
        r
    }
}

/// A whole JSON document, such as a JSON schema.
#[derive(Debug)]
pub enum JsonDocument {
    /// An object, held key by key.
    Object(JsonObject),
    /// `null`
    Null,
    /// Any other JSON value, held as its JSON text.
    Other(String),
}

/// The mathematical model of a [`JsonDocument`].
pub enum JsonDocumentView {
    Object(Map<Seq<char>, JsonValueView>),
    Null,
    Other(Seq<char>),
}

impl View for JsonDocument {
    type V = JsonDocumentView;

    open spec fn view(&self) -> JsonDocumentView {
        match self {
            JsonDocument::Object(o) => JsonDocumentView::Object(o@),
            JsonDocument::Null => JsonDocumentView::Null,
            JsonDocument::Other(t) => JsonDocumentView::Other(t@),
        }
    }
}

impl Clone for JsonDocument {
    fn clone(&self) -> (r: Self)
        ensures
            r@ == self@,
    {
        match self {
            JsonDocument::Object(o) => JsonDocument::Object(o.clone()),
            JsonDocument::Null => JsonDocument::Null,
            JsonDocument::Other(t) => JsonDocument::Other(t.clone()),
        }
    }
}

/// The model of an optional JSON object.
pub open spec fn opt_object(o: Option<JsonObject>) -> Option<Map<Seq<char>, JsonValueView>> {
    match o {
        Some(m) => Some(m@),
        None => None,
    }
}

/// The text that `serde_json` prints for a JSON string whose contents are
/// `s` (the contents in double quotes, escaped as JSON requires).
pub uninterp spec fn json_string_text(s: Seq<char>) -> Seq<char>;

/// Calls `serde_json::Value::String` and the `Display` of
/// `serde_json::Value`; claims that the result is `json_string_text` of the
/// contents, a function of the contents alone.
#[verifier::external_body]
pub(crate) fn json_string(s: &String) -> (r: String)
    ensures
        r@ == json_string_text(s@),
{
    serde_json::Value::String(s.clone()).to_string()
}

} // verus!
