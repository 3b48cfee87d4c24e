//! The JSON values that travel between the browser, the relay and the
//! app-server, as plain data the relay logic can read and build.

use vstd::prelude::*;

verus! {

/// A JSON number, kept in the form that decides how the relay reads it.
#[derive(Debug)]
pub enum JsonNumber {
    /// A non-negative integer that fits in `u64`.
    PosInt(u64),
    /// A negative integer that fits in `i64`.
    NegInt(i64),
    /// Any other number, kept as its decimal text.
    Float(String),
}

/// A JSON value. Objects keep their entries in order.
#[derive(Debug)]
pub enum JsonValue {
    Null,
    Bool(bool),
    Number(JsonNumber),
    Str(String),
    Array(Vec<JsonValue>),
    Object(Vec<(String, JsonValue)>),
}

impl Clone for JsonNumber {
    fn clone(&self) -> (r: Self)
        ensures
            r == *self,
    {
        match self {
            JsonNumber::PosInt(n) => JsonNumber::PosInt(*n),
            JsonNumber::NegInt(n) => JsonNumber::NegInt(*n),
            JsonNumber::Float(t) => JsonNumber::Float(t.clone()),
        }
    }
}

/// Whether `a` and `b` hold the same JSON down to `depth` levels of nesting:
/// the same scalars, strings of the same characters, and arrays and objects of
/// the same length, with keys of the same characters, whose elements agree one
/// level less deep.
pub open spec fn agree_to_depth(a: JsonValue, b: JsonValue, depth: nat) -> bool
    decreases depth, 0nat,
{
    match a {
        JsonValue::Array(xs) => b matches JsonValue::Array(ys) && ys@.len() == xs@.len() && (
        depth > 0 ==> items_agree(xs@, ys@, (depth - 1) as nat)),
        JsonValue::Object(es) => b matches JsonValue::Object(fs) && fs@.len() == es@.len() && (
        forall|i: int| 0 <= i < es@.len() ==> #[trigger] fs@[i].0@ == es@[i].0@) && (depth > 0
            ==> entries_agree(es@, fs@, (depth - 1) as nat)),
        JsonValue::Str(s) => b matches JsonValue::Str(t) && t@ == s@,
        _ => b == a,
    }
}

/// Whether the elements of `xs` and `ys` agree to `depth`, position by position.
pub open spec fn items_agree(xs: Seq<JsonValue>, ys: Seq<JsonValue>, depth: nat) -> bool
    decreases depth, xs.len(),
{
    if xs.len() == 0 {
        true
    } else {
        agree_to_depth(xs.last(), ys.last(), depth) && items_agree(
            xs.drop_last(),
            ys.drop_last(),
            depth,
        )
    }
}

/// Whether the values of the entries `es` and `fs` agree to `depth`, position by position.
pub open spec fn entries_agree(
    es: Seq<(String, JsonValue)>,
    fs: Seq<(String, JsonValue)>,
    depth: nat,
) -> bool
    decreases depth, es.len(),
{
    if es.len() == 0 {
        true
    } else {
        agree_to_depth(es.last().1, fs.last().1, depth) && entries_agree(
            es.drop_last(),
            fs.drop_last(),
            depth,
        )
    }
}

proof fn lemma_items_agree(xs: Seq<JsonValue>, ys: Seq<JsonValue>, depth: nat)
    requires
        xs.len() == ys.len(),
        forall|i: int| 0 <= i < xs.len() ==> #[trigger] agree_to_depth(xs[i], ys[i], depth),
    ensures
        items_agree(xs, ys, depth),
    decreases xs.len(),
{
    if xs.len() > 0 {
        let n = xs.len() - 1;
        assert(agree_to_depth(xs[n], ys[n], depth));
        assert forall|i: int| 0 <= i < xs.drop_last().len() implies #[trigger] agree_to_depth(
            xs.drop_last()[i],
            ys.drop_last()[i],
            depth,
        ) by {
            assert(agree_to_depth(xs[i], ys[i], depth));
        }
        lemma_items_agree(xs.drop_last(), ys.drop_last(), depth);
    }
}

proof fn lemma_entries_agree(es: Seq<(String, JsonValue)>, fs: Seq<(String, JsonValue)>, depth: nat)
    requires
        es.len() == fs.len(),
        forall|i: int| 0 <= i < es.len() ==> #[trigger] agree_to_depth(es[i].1, fs[i].1, depth),
    ensures
        entries_agree(es, fs, depth),
    decreases es.len(),
{
    if es.len() > 0 {
        let n = es.len() - 1;
        assert(agree_to_depth(es[n].1, fs[n].1, depth));
        assert forall|i: int| 0 <= i < es.drop_last().len() implies #[trigger] agree_to_depth(
            es.drop_last()[i].1,
            fs.drop_last()[i].1,
            depth,
        ) by {
            assert(agree_to_depth(es[i].1, fs[i].1, depth));
        }
        lemma_entries_agree(es.drop_last(), fs.drop_last(), depth);
    }
}

/// Whether `a` and `b` hold the same JSON, at every depth of nesting.
pub open spec fn same_json(a: JsonValue, b: JsonValue) -> bool {
    forall|depth: nat| #[trigger] agree_to_depth(a, b, depth)
}

impl Clone for JsonValue {
    #[verifier::loop_isolation(false)]
    fn clone(&self) -> (r: Self)
        ensures
            same_json(*self, r),
        decreases self,
    {
        match self {
            JsonValue::Null => JsonValue::Null,
            JsonValue::Bool(b) => JsonValue::Bool(*b),
            JsonValue::Number(n) => JsonValue::Number(n.clone()),
            JsonValue::Str(s) => JsonValue::Str(s.clone()),
            JsonValue::Array(items) => {
                let mut out: Vec<JsonValue> = Vec::new();
                let mut i: usize = 0;
                while i < items.len()
                    invariant
                        i <= items@.len(),
                        out@.len() == i,
                        forall|j: int| 0 <= j < i ==> #[trigger] same_json(items@[j], out@[j]),
                    decreases items.len() - i,
                {
                    proof {
                        vstd::std_specs::vec::axiom_vec_index_decreases(*items, i as int);
                        assert(decreases_to!(*self => *items));
                    }
                    let c = items[i].clone();
                    let ghost before = out@;
                    out.push(c);
                    assert forall|j: int| 0 <= j < i + 1 implies #[trigger] same_json(items@[j], out@[j]) by {
                        if j < i {
                            assert(out@[j] == before[j]);
                        }
                    }
                    i += 1;
                }
                let r = JsonValue::Array(out);
                assert forall|depth: nat| #[trigger] agree_to_depth(*self, r, depth) by {
                    if depth > 0 {
                        let d = (depth - 1) as nat;
                        assert forall|j: int| 0 <= j < items@.len() implies #[trigger] agree_to_depth(
                            items@[j],
                            out@[j],
                            d,
                        ) by {
                            assert(same_json(items@[j], out@[j]));
                        }
                        lemma_items_agree(items@, out@, d);
                    }
                }
                r
            },
            JsonValue::Object(entries) => {
                let mut out: Vec<(String, JsonValue)> = Vec::new();
                let mut i: usize = 0;
                while i < entries.len()
                    invariant
                        i <= entries@.len(),
                        out@.len() == i,
                        forall|j: int| 0 <= j < i ==> #[trigger] out@[j].0@ == entries@[j].0@,
                        forall|j: int| 0 <= j < i ==> #[trigger] same_json(entries@[j].1, out@[j].1),
                    decreases entries.len() - i,
                {
                    proof {
                        vstd::std_specs::vec::axiom_vec_index_decreases(*entries, i as int);
                        assert(decreases_to!(*self => *entries));
                        assert(decreases_to!(entries[i as int] => entries[i as int].1));
                    }
                    let k = entries[i].0.clone();
                    let v = entries[i].1.clone();
                    let ghost before = out@;
                    out.push((k, v));
                    assert forall|j: int| 0 <= j < i + 1 implies #[trigger] out@[j].0@
                        == entries@[j].0@ by {
                        if j < i {
                            assert(out@[j] == before[j]);
                        }
                    }
                    assert forall|j: int| 0 <= j < i + 1 implies #[trigger] same_json(
                        entries@[j].1,
                        out@[j].1,
                    ) by {
                        if j < i {
                            assert(out@[j] == before[j]);
                        }
                    }
                    i += 1;
                }
                let r = JsonValue::Object(out);
                assert forall|depth: nat| #[trigger] agree_to_depth(*self, r, depth) by {
                    if depth > 0 {
                        let d = (depth - 1) as nat;
                        assert forall|j: int| 0 <= j < entries@.len() implies #[trigger] agree_to_depth(
                            entries@[j].1,
                            out@[j].1,
                            d,
                        ) by {
                            assert(same_json(entries@[j].1, out@[j].1));
                        }
                        lemma_entries_agree(entries@, out@, d);
                    }
                }
                r
            },
        }
    }
}

/// The value stored under the first entry whose key is `key`.
pub open spec fn lookup(entries: Seq<(String, JsonValue)>, key: Seq<char>) -> Option<JsonValue>
    decreases entries.len(),
{
    if entries.len() == 0 {
        None
    } else if entries[0].0@ == key {
        Some(entries[0].1)
    } else {
        lookup(entries.drop_first(), key)
    }
}

/// The keys of `entries`, in order.
pub open spec fn keys_of(entries: Seq<(String, JsonValue)>) -> Seq<Seq<char>> {
    entries.map_values(|e: (String, JsonValue)| e.0@)
}

/// Whether `o` holds a JSON string with the characters `s`.
pub open spec fn is_text(o: Option<JsonValue>, s: Seq<char>) -> bool {
    o matches Some(JsonValue::Str(t)) && t@ == s
}

/// Whether `o` holds the JSON number `n`.
pub open spec fn is_unsigned(o: Option<JsonValue>, n: u64) -> bool {
    o matches Some(JsonValue::Number(JsonNumber::PosInt(m))) && m == n
}

/// Whether `o` holds a JSON string when `s` is `Some`, and is absent when `s` is `None`.
pub open spec fn is_opt_text(o: Option<JsonValue>, s: Option<Seq<char>>) -> bool {
    match s {
        Some(t) => is_text(o, t),
        None => o is None,
    }
}

pub proof fn lemma_lookup_at(entries: Seq<(String, JsonValue)>, key: Seq<char>, i: int)
    requires
        0 <= i < entries.len(),
        entries[i].0@ == key,
        forall|j: int| 0 <= j < i ==> entries[j].0@ != key,
    ensures
        lookup(entries, key) == Some(entries[i].1),
    decreases i,
{
    if i > 0 {
        lemma_lookup_at(entries.drop_first(), key, i - 1);
    }
}

pub proof fn lemma_lookup_absent(entries: Seq<(String, JsonValue)>, key: Seq<char>)
    requires
        forall|j: int| 0 <= j < entries.len() ==> entries[j].0@ != key,
    ensures
        lookup(entries, key) is None,
    decreases entries.len(),
{
    if entries.len() > 0 {
        lemma_lookup_absent(entries.drop_first(), key);
    }
}

pub proof fn lemma_lookup_push(entries: Seq<(String, JsonValue)>, e: (String, JsonValue), key: Seq<char>)
    ensures
        lookup(entries.push(e), key) == (if lookup(entries, key) is Some {
            lookup(entries, key)
        } else if e.0@ == key {
            Some(e.1)
        } else {
            None
        }),
    decreases entries.len(),
{
    if entries.len() > 0 {
        assert(entries.push(e).drop_first() =~= entries.drop_first().push(e));
        assert(entries.push(e)[0] == entries[0]);
        lemma_lookup_push(entries.drop_first(), e, key);
    } else {
        assert(entries.push(e)[0] == e);
        assert(entries.push(e).drop_first().len() == 0);
        assert(lookup(entries.push(e).drop_first(), key) is None);
    }
}

impl JsonValue {
    /// What `value[key]` reads: the entry's value when `self` is an object that has `key`.
    pub open spec fn field(self, key: Seq<char>) -> Option<JsonValue> {
        match self {
            JsonValue::Object(entries) => lookup(entries@, key),
            _ => None,
        }
    }

    /// The characters of a JSON string.
    pub open spec fn text(self) -> Option<Seq<char>> {
        match self {
            JsonValue::Str(s) => Some(s@),
            _ => None,
        }
    }

    /// The value of a non-negative integer that fits in `u64`.
    pub open spec fn unsigned(self) -> Option<u64> {
        match self {
            JsonValue::Number(JsonNumber::PosInt(n)) => Some(n),
            _ => None,
        }
    }

    /// The text of the string field `key`, if there is one.
    pub open spec fn text_field(self, key: Seq<char>) -> Option<Seq<char>> {
        match self.field(key) {
            Some(v) => v.text(),
            None => None,
        }
    }

    /// The text of the string field `key`, or `default` when it is absent or not a string.
    pub open spec fn text_field_or(self, key: Seq<char>, default: Seq<char>) -> Seq<char> {
        match self.text_field(key) {
            Some(t) => t,
            None => default,
        }
    }

    /// The text of the string field `key` when it is present and not empty.
    pub open spec fn nonempty_text_field(self, key: Seq<char>) -> Option<Seq<char>> {
        match self.text_field(key) {
            Some(t) => if t.len() > 0 { Some(t) } else { None },
            None => None,
        }
    }

    /// The text of the string field `inner` of the field `outer`, or `default`.
    pub open spec fn sub_text_field_or(self, outer: Seq<char>, inner: Seq<char>, default: Seq<char>) -> Seq<
        char,
    > {
        match self.field(outer) {
            Some(o) => o.text_field_or(inner, default),
            None => default,
        }
    }

    /// The field `inner` of the field `outer`.
    pub open spec fn sub_field(self, outer: Seq<char>, inner: Seq<char>) -> Option<JsonValue> {
        match self.field(outer) {
            Some(o) => o.field(inner),
            None => None,
        }
    }

    /// Whether `r` is the field `key` of `self`, or `null` when there is none.
    pub open spec fn is_field_or_null(self, key: Seq<char>, r: JsonValue) -> bool {
        match self.field(key) {
            Some(v) => r == v,
            None => r is Null,
        }
    }

    /// Whether `r` is the field `key` of `self`, or an empty object when there is none.
    pub open spec fn is_field_or_empty(self, key: Seq<char>, r: JsonValue) -> bool {
        match self.field(key) {
            Some(v) => r == v,
            None => r.is_empty_object(),
        }
    }

    /// Whether `self` is an object without entries.
    pub open spec fn is_empty_object(self) -> bool {
        self matches JsonValue::Object(entries) && entries@.len() == 0
    }

    /// The keys of an object, in order; no keys for any other value.
    pub open spec fn keys(self) -> Seq<Seq<char>> {
        match self {
            JsonValue::Object(entries) => keys_of(entries@),
            _ => Seq::empty(),
        }
    }

    /// Builds a JSON string holding `s`.
    pub fn string(s: &str) -> (r: JsonValue)
        ensures
            r.text() == Some(s@),
    {
        JsonValue::Str(s.to_owned())
    }

    /// Builds an object without entries.
    pub fn empty_object() -> (r: JsonValue)
        ensures
            r.is_empty_object(),
            r.keys() == Seq::<Seq<char>>::empty(),
    {
        JsonValue::Object(Vec::new())
    }

    /// The value under `key`, when `self` is an object that has it.
    pub fn get(&self, key: &str) -> (r: Option<&JsonValue>)
        ensures
            match r {
                Some(v) => self.field(key@) == Some(*v),
                None => self.field(key@) is None,
            },
    {
        match self {
            JsonValue::Object(entries) => match find_key(entries, key) {
                Some(i) => Some(&entries[i].1),
                None => None,
            },
            _ => None,
        }
    }

    /// Whether `self` is an object that has `key`.
    pub fn has(&self, key: &str) -> (r: bool)
        ensures
            r == self.field(key@) is Some,
    {
        self.get(key).is_some()
    }

    /// Moves the value under `key` out of `self`.
    pub fn take(self, key: &str) -> (r: Option<JsonValue>)
        ensures
            r == self.field(key@),
    {
        match self {
            JsonValue::Object(mut entries) => match find_key(&entries, key) {
                Some(i) => {
                    let (_, v) = entries.remove(i);
                    Some(v)
                },
                None => None,
            },
            _ => None,
        }
    }

    /// The characters of a JSON string.
    pub fn as_str(&self) -> (r: Option<&str>)
        ensures
            match r {
                Some(t) => self.text() == Some(t@),
                None => self.text() is None,
            },
    {
        match self {
            JsonValue::Str(s) => Some(s.as_str()),
            _ => None,
        }
    }

    /// The value of a non-negative integer that fits in `u64`.
    pub fn as_u64(&self) -> (r: Option<u64>)
        ensures
            r == self.unsigned(),
    {
        match self {
            JsonValue::Number(JsonNumber::PosInt(n)) => Some(*n),
            _ => None,
        }
    }

    /// The text of the string field `key`, or `default`.
    pub fn text_or(&self, key: &str, default: &str) -> (r: String)
        ensures
            r@ == self.text_field_or(key@, default@),
    {
        match self.get(key) {
            Some(v) => match v.as_str() {
                Some(t) => t.to_owned(),
                None => default.to_owned(),
            },
            None => default.to_owned(),
        }
    }

    /// The text of the string field `key` when it is present and not empty.
    pub fn nonempty_text(&self, key: &str) -> (r: Option<String>)
        ensures
            match r {
                Some(t) => self.nonempty_text_field(key@) == Some(t@),
                None => self.nonempty_text_field(key@) is None,
            },
    {
        match self.get(key) {
            Some(v) => match v.as_str() {
                Some(t) => if t.is_empty() {
                    None
                } else {
                    Some(t.to_owned())
                },
                None => None,
            },
            None => None,
        }
    }

    /// The text of the string field `inner` of the field `outer`, or `default`.
    pub fn sub_text_or(&self, outer: &str, inner: &str, default: &str) -> (r: String)
        ensures
            r@ == self.sub_text_field_or(outer@, inner@, default@),
    {
        match self.get(outer) {
            Some(o) => o.text_or(inner, default),
            None => default.to_owned(),
        }
    }

    /// Moves the fields `key1` and `key2` out of `self`.
    pub fn take_two(self, key1: &str, key2: &str) -> (r: (Option<JsonValue>, Option<JsonValue>))
        requires
            key1@ != key2@,
        ensures
            r.0 == self.field(key1@),
            r.1 == self.field(key2@),
    {
        match self {
            JsonValue::Object(mut entries) => {
                let i1 = find_key(&entries, key1);
                let i2 = find_key(&entries, key2);
                match (i1, i2) {
                    (Some(i), Some(j)) => {
                        if i < j {
                            let (_, b) = entries.remove(j);
                            let (_, a) = entries.remove(i);
                            (Some(a), Some(b))
                        } else {
                            let (_, a) = entries.remove(i);
                            let (_, b) = entries.remove(j);
                            (Some(a), Some(b))
                        }
                    },
                    (Some(i), None) => {
                        let (_, a) = entries.remove(i);
                        (Some(a), None)
                    },
                    (None, Some(j)) => {
                        let (_, b) = entries.remove(j);
                        (None, Some(b))
                    },
                    (None, None) => (None, None),
                }
            },
            _ => (None, None),
        }
    }

    /// Moves the field `key` out of `self`, or gives `null`.
    pub fn take_or_null(self, key: &str) -> (r: JsonValue)
        ensures
            self.is_field_or_null(key@, r),
    {
        match self.take(key) {
            Some(v) => v,
            None => JsonValue::Null,
        }
    }

    /// Moves the field `key` out of `self`, or gives an empty object.
    pub fn take_or_empty(self, key: &str) -> (r: JsonValue)
        ensures
            self.is_field_or_empty(key@, r),
    {
        match self.take(key) {
            Some(v) => v,
            None => JsonValue::Object(Vec::new()),
        }
    }
}

/// The position of the first entry whose key is `key`.
fn find_key(entries: &Vec<(String, JsonValue)>, key: &str) -> (r: Option<usize>)
    ensures
        match r {
            Some(i) => i < entries@.len() && entries@[i as int].0@ == key@ && lookup(entries@, key@)
                == Some(entries@[i as int].1),
            None => lookup(entries@, key@) is None,
        },
{
    let k = key.to_owned();
    let mut i: usize = 0;
    while i < entries.len()
        invariant
            i <= entries@.len(),
            k@ == key@,
            forall|j: int| 0 <= j < i ==> entries@[j].0@ != key@,
        decreases entries@.len() - i,
    {
        if entries[i].0 == k {
            proof {
                lemma_lookup_at(entries@, key@, i as int);
            }
            return Some(i);
        }
        i += 1;
    }
    proof {
        lemma_lookup_absent(entries@, key@);
    }
    None
}

/// Appends the entry `key: value` to the entries of an object under construction.
pub fn push_entry(entries: &mut Vec<(String, JsonValue)>, key: &str, value: JsonValue)
    ensures
        keys_of(final(entries)@) == keys_of(old(entries)@).push(key@),
        forall|k: Seq<char>|
            #[trigger] lookup(final(entries)@, k) == (if lookup(old(entries)@, k) is Some {
                lookup(old(entries)@, k)
            } else if k == key@ {
                Some(value)
            } else {
                None
            }),
{
    let ghost before = entries@;
    let e = entry(key, value);
    entries.push(e);
    proof {
        assert forall|k: Seq<char>| #[trigger] lookup(entries@, k) == (if lookup(before, k) is Some {
            lookup(before, k)
        } else if k == key@ {
            Some(value)
        } else {
            None
        }) by {
            lemma_lookup_push(before, e, k);
        }
        assert(keys_of(entries@) =~= keys_of(before).push(key@));
    }
}

/// Whether `s` holds the characters of `lit`.
pub fn same_text(s: &String, lit: &str) -> (r: bool)
    ensures
        r == (s@ == lit@),
{
    *s == lit.to_owned()
}

/// An object entry with key `key`.
pub fn entry(key: &str, value: JsonValue) -> (r: (String, JsonValue))
    ensures
        r.0@ == key@,
        r.1 == value,
{
    (key.to_owned(), value)
}

} // verus!
