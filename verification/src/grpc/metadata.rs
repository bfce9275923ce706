//! gRPC metadata: an insertion-ordered string map with exact lookup
//! semantics, the metadata builder, and the header filters that decide which
//! metadata entries reach the wire.

use vstd::prelude::*;
use vstd::string::StringExecFns;
use crate::text::{str_eq, parse_i32, parsed_i32, owned, lowercase, spec_lowercase};

verus! {

/// The value stored for `k` in the entry list `s`: the first entry whose key
/// is `k` decides.
pub open spec fn lookup<K, V>(s: Seq<(K, V)>, k: K) -> Option<V>
    decreases s.len(),
{
    if s.len() == 0 {
        None
    } else if s[0].0 == k {
        Some(s[0].1)
    } else {
        lookup(s.drop_first(), k)
    }
}

/// The map an entry list denotes.
pub open spec fn entries_map(s: Seq<(Seq<char>, Seq<char>)>) -> Map<Seq<char>, Seq<char>> {
    Map::new(|k: Seq<char>| lookup(s, k) is Some, |k: Seq<char>| lookup(s, k)->0)
}

/// The index of the first entry of `s` with key `k`, given that entry `i`
/// has it.
proof fn first_index_of_key<K, V>(s: Seq<(K, V)>, k: K, i: int) -> (f: int)
    requires
        0 <= i < s.len(),
        s[i].0 == k,
    ensures
        0 <= f <= i,
        s[f].0 == k,
        forall|j: int| 0 <= j < f ==> s[j].0 != k,
    decreases i,
{
    if exists|j: int| 0 <= j < i && s[j].0 == k {
        let j = choose|j: int| 0 <= j < i && s[j].0 == k;
        first_index_of_key(s, k, j)
    } else {
        i
    }
}

/// The first entry with key `k` gives its value.
pub proof fn lemma_lookup_first<K, V>(s: Seq<(K, V)>, k: K, i: int)
    requires
        0 <= i < s.len(),
        s[i].0 == k,
        forall|j: int| 0 <= j < i ==> s[j].0 != k,
    ensures
        lookup(s, k) == Some(s[i].1),
    decreases i,
{
    if i > 0 {
        let t = s.drop_first();
        assert forall|j: int| 0 <= j < i - 1 implies t[j].0 != k by {
            assert(t[j] == s[j + 1]);
        }
        lemma_lookup_first(t, k, i - 1);
    }
}

/// A key that no entry has is absent.
pub proof fn lemma_lookup_absent<K, V>(s: Seq<(K, V)>, k: K)
    requires
        forall|j: int| 0 <= j < s.len() ==> s[j].0 != k,
    ensures
        lookup(s, k) is None,
    decreases s.len(),
{
    if s.len() > 0 {
        let t = s.drop_first();
        assert forall|j: int| 0 <= j < t.len() implies t[j].0 != k by {
            assert(t[j] == s[j + 1]);
        }
        lemma_lookup_absent(t, k);
    }
}

/// Two entry lists that agree position by position on the entries with key
/// `k` give the same value for `k`.
pub proof fn lemma_lookup_same_for_key<K, V>(s1: Seq<(K, V)>, s2: Seq<(K, V)>, k: K)
    requires
        s1.len() == s2.len(),
        forall|j: int| 0 <= j < s1.len() ==> ((s1[j].0 == k) == (s2[j].0 == k)),
        forall|j: int| 0 <= j < s1.len() && s1[j].0 == k ==> s1[j].1 == s2[j].1,
    ensures
        lookup(s1, k) == lookup(s2, k),
    decreases s1.len(),
{
    if s1.len() > 0 {
        let t1 = s1.drop_first();
        let t2 = s2.drop_first();
        assert forall|j: int| 0 <= j < t1.len() implies ((t1[j].0 == k) == (t2[j].0 == k)) by {
            assert(t1[j] == s1[j + 1]);
            assert(t2[j] == s2[j + 1]);
        }
        assert forall|j: int| 0 <= j < t1.len() && t1[j].0 == k implies t1[j].1 == t2[j].1 by {
            assert(t1[j] == s1[j + 1]);
            assert(t2[j] == s2[j + 1]);
        }
        lemma_lookup_same_for_key(t1, t2, k);
    }
}

/// Appending an entry changes the value of `k` only where `k` was absent.
pub proof fn lemma_lookup_push<K, V>(s: Seq<(K, V)>, e: (K, V), k: K)
    ensures
        lookup(s.push(e), k) == (if lookup(s, k) is Some {
            lookup(s, k)
        } else if e.0 == k {
            Some(e.1)
        } else {
            None
        }),
    decreases s.len(),
{
    if s.len() > 0 {
        assert(s.push(e)[0] == s[0]);
        assert(s.push(e).drop_first() =~= s.drop_first().push(e));
        lemma_lookup_push(s.drop_first(), e, k);
    } else {
        assert(s.push(e)[0] == e);
        assert(s.push(e).drop_first().len() == 0);
        assert(lookup(s.push(e).drop_first(), k) is None);
    }
}

/// A string-to-string map that keeps its entries in insertion order; a key
/// occurs at most once and inserting an existing key replaces its value in
/// place.
#[derive(Debug, Clone, PartialEq, Eq)]
pub struct StringMap {
    entries: Vec<(String, String)>,
}

impl StringMap {
    /// The entries, in order, as character sequences.
    pub closed spec fn pairs(&self) -> Seq<(Seq<char>, Seq<char>)> {
        self.entries@.map_values(|e: (String, String)| (e.0@, e.1@))
    }

    /// No key occurs twice among the entries.
    pub closed spec fn keys_unique(&self) -> bool {
        self.pairs().map_values(|e: (Seq<char>, Seq<char>)| e.0).no_duplicates()
    }

    /// An empty map.
    pub fn new() -> (m: Self)
        ensures
            m.pairs() == Seq::<(Seq<char>, Seq<char>)>::empty(),
            m@ == Map::<Seq<char>, Seq<char>>::empty(),
            m.keys_unique(),
    {
        let m = StringMap { entries: Vec::new() };
        assert(m.pairs().map_values(|e: (Seq<char>, Seq<char>)| e.0) =~= Seq::<Seq<char>>::empty());
        assert(m.pairs() =~= Seq::<(Seq<char>, Seq<char>)>::empty());
        assert(m@ =~= Map::<Seq<char>, Seq<char>>::empty());
        m
    }

    /// Index of the first entry whose key is `key`.
    fn position(&self, key: &str) -> (r: Option<usize>)
        ensures
            match r {
                Some(i) => i < self.pairs().len() && self.pairs()[i as int].0 == key@ && forall|
                    j: int,
                | 0 <= j < i ==> self.pairs()[j].0 != key@,
                None => forall|j: int|
                    0 <= j < self.pairs().len() ==> self.pairs()[j].0 != key@,
            },
    {
        let mut i: usize = 0;
        while i < self.entries.len()
            invariant
                i <= self.entries@.len(),
                forall|j: int| 0 <= j < i ==> self.pairs()[j].0 != key@,
            decreases self.entries@.len() - i,
        {
            if str_eq(self.entries[i].0.as_str(), key) {
                return Some(i);
            }
            i = i + 1;
        }
        None
    }

    /// The value stored for `key`.
    pub fn get(&self, key: &str) -> (r: Option<&String>)
        ensures
            match r {
                Some(v) => self@.contains_key(key@) && self@[key@] == v@,
                None => !self@.contains_key(key@),
            },
    {
        match self.position(key) {
            Some(i) => {
                proof {
                    lemma_lookup_first(self.pairs(), key@, i as int);
                }
                Some(&self.entries[i].1)
            },
            None => {
                proof {
                    lemma_lookup_absent(self.pairs(), key@);
                }
                None
            },
        }
    }

    /// Whether a value is stored for `key`.
    pub fn contains_key(&self, key: &str) -> (r: bool)
        ensures
            r == self@.contains_key(key@),
    {
        self.get(key).is_some()
    }

    /// Stores `value` for `key`, replacing a value already stored for it.
    pub fn insert(&mut self, key: String, value: String)
        ensures
            final(self)@ == old(self)@.insert(key@, value@),
            old(self)@.contains_key(key@) ==> final(self).pairs().len() == old(self).pairs().len(),
            !old(self)@.contains_key(key@) ==> final(self).pairs() == old(self).pairs().push(
                (key@, value@),
            ),
            old(self).keys_unique() ==> final(self).keys_unique(),
    {
        let ghost old_pairs = self.pairs();
        let ghost k = key@;
        let ghost v = value@;
        match self.position(key.as_str()) {
            Some(i) => {
                self.entries.set(i, (key, value));
                proof {
                    let s = self.pairs();
                    assert(s =~= old_pairs.update(i as int, (k, v)));
                    lemma_lookup_first(old_pairs, k, i as int);
                    assert forall|j: int| 0 <= j < i implies s[j].0 != k by {
                        assert(s[j] == old_pairs[j]);
                    }
                    lemma_lookup_first(s, k, i as int);
                    assert forall|k2: Seq<char>| k2 != k implies lookup(s, k2) == lookup(
                        old_pairs,
                        k2,
                    ) by {
                        lemma_lookup_same_for_key(s, old_pairs, k2);
                    }
                    assert(entries_map(s) =~= entries_map(old_pairs).insert(k, v));
                    assert(s.map_values(|e: (Seq<char>, Seq<char>)| e.0) =~= old_pairs.map_values(|e: (Seq<char>, Seq<char>)| e.0));
                }
            },
            None => {
                self.entries.push((key, value));
                proof {
                    let s = self.pairs();
                    assert(s =~= old_pairs.push((k, v)));
                    lemma_lookup_absent(old_pairs, k);
                    assert forall|k2: Seq<char>| lookup(s, k2) == (if k2 == k {
                        Some(v)
                    } else {
                        lookup(old_pairs, k2)
                    }) by {
                        lemma_lookup_push(old_pairs, (k, v), k2);
                    }
                    assert(entries_map(s) =~= entries_map(old_pairs).insert(k, v));
                    let ok = old_pairs.map_values(|e: (Seq<char>, Seq<char>)| e.0);
                    assert(s.map_values(|e: (Seq<char>, Seq<char>)| e.0) =~= ok.push(k));
                    assert forall|j: int| 0 <= j < ok.len() implies ok[j] != k by {
                        assert(ok[j] == old_pairs[j].0);
                    }
                }
            },
        }
    }

    /// A copy of the map, entry for entry.
    pub fn duplicate(&self) -> (r: Self)
        ensures
            r.pairs() == self.pairs(),
            r@ == self@,
            r.keys_unique() == self.keys_unique(),
    {
        let mut entries: Vec<(String, String)> = Vec::new();
        let mut i: usize = 0;
        while i < self.entries.len()
            invariant
                i <= self.entries@.len(),
                entries@.len() == i,
                entries@.map_values(|e: (String, String)| (e.0@, e.1@)) == self.pairs().subrange(0, i as int),
            decreases self.entries@.len() - i,
        {
            let k = self.entries[i].0.clone();
            let v = self.entries[i].1.clone();
            assert((k@, v@) == self.pairs()[i as int]);
            let ghost prev = entries@;
            entries.push((k, v));
            proof {
                let a = entries@.map_values(|e: (String, String)| (e.0@, e.1@));
                let b = self.pairs().subrange(0, i + 1);
                assert forall|j: int| 0 <= j < i + 1 implies a[j] == b[j] by {
                    if j < i {
                        assert(entries@[j] == prev[j]);
                        assert(prev.map_values(|e: (String, String)| (e.0@, e.1@))[j] == self.pairs()[j]);
                    }
                }
                assert(a =~= b);
            }
            i = i + 1;
        }
        let r = StringMap { entries };
        assert(r.pairs() =~= self.pairs());
        r
    }

    /// Number of entries: the number of keys of the map when no key occurs
    /// twice.
    pub fn len(&self) -> (r: usize)
        ensures
            r == self.pairs().len(),
            self.keys_unique() ==> r == self@.len(),
    {
        proof {
            if self.keys_unique() {
                self.lemma_len_is_map_len();
            }
        }
        self.entries.len()
    }

    /// With distinct keys, the map has one key per entry.
    proof fn lemma_len_is_map_len(&self)
        requires
            self.keys_unique(),
        ensures
            self@.len() == self.pairs().len(),
    {
        let s = self.pairs();
        let keys = s.map_values(|e: (Seq<char>, Seq<char>)| e.0);
        assert forall|k: Seq<char>| self@.dom().contains(k) == keys.to_set().contains(k) by {
            if keys.to_set().contains(k) {
                let i = choose|i: int| 0 <= i < keys.len() && keys[i] == k;
                let first = first_index_of_key(s, k, i);
                lemma_lookup_first(s, k, first);
            } else {
                assert forall|j: int| 0 <= j < s.len() implies s[j].0 != k by {
                    assert(keys[j] == s[j].0);
                }
                lemma_lookup_absent(s, k);
            }
        }
        assert(self@.dom() =~= keys.to_set());
        keys.unique_seq_to_set();
    }

    /// Whether the map holds no entry.
    pub fn is_empty(&self) -> (r: bool)
        ensures
            r == (self.pairs().len() == 0),
    {
        self.entries.len() == 0
    }

    /// The key of the `i`-th entry.
    pub fn key_at(&self, i: usize) -> (r: &String)
        requires
            i < self.pairs().len(),
        ensures
            r@ == self.pairs()[i as int].0,
    {
        &self.entries[i].0
    }

    /// The value of the `i`-th entry.
    pub fn value_at(&self, i: usize) -> (r: &String)
        requires
            i < self.pairs().len(),
        ensures
            r@ == self.pairs()[i as int].1,
    {
        &self.entries[i].1
    }
}

impl View for StringMap {
    type V = Map<Seq<char>, Seq<char>>;

    open spec fn view(&self) -> Map<Seq<char>, Seq<char>> {
        entries_map(self.pairs())
    }
}


/// The view of a header value that may or may not be valid text.
pub open spec fn opt_text(o: Option<String>) -> Option<Seq<char>> {
    match o {
        Some(t) => Some(t@),
        None => None,
    }
}

/// The view of a list of received header entries: each name with its value
/// when the value is visible ASCII text.
pub open spec fn header_entries(v: Seq<(String, Option<String>)>) -> Seq<(Seq<char>, Option<Seq<char>>)> {
    v.map_values(|e: (String, Option<String>)| (e.0@, opt_text(e.1)))
}

/// The metadata a list of received header entries yields: every entry whose
/// value is text, a later entry for a name replacing an earlier one.
pub open spec fn metadata_of(s: Seq<(Seq<char>, Option<Seq<char>>)>) -> Map<Seq<char>, Seq<char>>
    decreases s.len(),
{
    if s.len() == 0 {
        Map::empty()
    } else {
        let m = metadata_of(s.drop_last());
        match s.last().1 {
            Some(v) => m.insert(s.last().0, v),
            None => m,
        }
    }
}

/// The text of the first entry named `name`, if that entry's value is text.
pub open spec fn first_header_text(s: Seq<(Seq<char>, Option<Seq<char>>)>, name: Seq<char>) -> Option<Seq<char>>
    decreases s.len(),
{
    if s.len() == 0 {
        None
    } else if s[0].0 == name {
        s[0].1
    } else {
        first_header_text(s.drop_first(), name)
    }
}

/// Adds the text-valued entries of `headers` to `metadata`, in order.
pub fn add_header_entries(metadata: &mut StringMap, headers: &Vec<(String, Option<String>)>)
    ensures
        final(metadata)@ == old(metadata)@.union_prefer_right(metadata_of(header_entries(headers@))),
{
    let ghost base = old(metadata)@;
    let mut i: usize = 0;
    assert(header_entries(headers@).subrange(0, 0) =~= Seq::<(Seq<char>, Option<Seq<char>>)>::empty());
    assert(base.union_prefer_right(Map::empty()) =~= base);
    while i < headers.len()
        invariant
            i <= headers@.len(),
            metadata@ == base.union_prefer_right(metadata_of(header_entries(headers@).subrange(0, i as int))),
        decreases headers@.len() - i,
    {
        let ghost prefix = header_entries(headers@).subrange(0, i as int);
        let ghost next = header_entries(headers@).subrange(0, i + 1);
        assert(next.drop_last() =~= prefix);
        assert(next.last() == (headers@[i as int].0@, opt_text(headers@[i as int].1)));
        match &headers[i].1 {
            Some(v) => {
                metadata.insert(headers[i].0.clone(), v.clone());
                assert(metadata@ =~= base.union_prefer_right(metadata_of(next)));
            },
            None => {},
        }
        i = i + 1;
    }
    assert(header_entries(headers@).subrange(0, headers@.len() as int) =~= header_entries(headers@));
}

/// Converts received header entries into response metadata.
pub fn headers_to_metadata(headers: &Vec<(String, Option<String>)>) -> (m: StringMap)
    ensures
        m@ == metadata_of(header_entries(headers@)),
{
    let mut m = StringMap::new();
    add_header_entries(&mut m, headers);
    assert(m@ =~= metadata_of(header_entries(headers@)));
    m
}

/// The text of the first entry named `name`.
pub fn first_header_value(headers: &Vec<(String, Option<String>)>, name: &str) -> (r: Option<String>)
    ensures
        opt_text(r) == first_header_text(header_entries(headers@), name@),
{
    let mut i: usize = 0;
    assert(header_entries(headers@).subrange(0, headers@.len() as int) =~= header_entries(headers@));
    while i < headers.len()
        invariant
            i <= headers@.len(),
            first_header_text(header_entries(headers@), name@) == first_header_text(header_entries(headers@).subrange(i as int, headers@.len() as int), name@),
        decreases headers@.len() - i,
    {
        let ghost rest = header_entries(headers@).subrange(i as int, headers@.len() as int);
        assert(rest[0] == (headers@[i as int].0@, opt_text(headers@[i as int].1)));
        if str_eq(headers[i].0.as_str(), name) {
            return headers[i].1.clone();
        }
        assert(rest.drop_first() =~= header_entries(headers@).subrange(i + 1, headers@.len() as int));
        i = i + 1;
    }
    None
}

/// The `grpc-status` code of a list of header entries, when the first such
/// entry is text that parses as an `i32`.
pub open spec fn status_code_of(s: Seq<(Seq<char>, Option<Seq<char>>)>) -> Option<i32> {
    match first_header_text(s, "grpc-status"@) {
        Some(t) => parsed_i32(t),
        None => None,
    }
}

/// Parses the `grpc-status` header.
pub fn parse_grpc_status(headers: &Vec<(String, Option<String>)>) -> (r: Option<i32>)
    ensures
        r == status_code_of(header_entries(headers@)),
{
    match first_header_value(headers, "grpc-status") {
        Some(t) => parse_i32(t.as_str()),
        None => None,
    }
}

/// Reads the `grpc-message` header.
pub fn parse_grpc_message(headers: &Vec<(String, Option<String>)>) -> (r: Option<String>)
    ensures
        opt_text(r) == first_header_text(header_entries(headers@), "grpc-message"@),
{
    first_header_value(headers, "grpc-message")
}

/// Whether `c` is a character `http` allows in a header name (its table of
/// token characters; letters of either case).
pub open spec fn header_name_char(c: char) -> bool {
    ||| ('a' <= c && c <= 'z')
    ||| ('A' <= c && c <= 'Z')
    ||| ('0' <= c && c <= '9')
    ||| c == '!' || c == '#' || c == '$' || c == '%' || c == '&' || c == '\''
    ||| c == '*' || c == '+' || c == '-' || c == '.' || c == '^' || c == '_'
    ||| c == '`' || c == '|' || c == '~'
}

/// Whether `http` accepts `name` as a header name: between one and 65535
/// characters, each one of its token characters (all of them ASCII, so the
/// bytes count as the characters do).
pub open spec fn header_name_accepted(name: Seq<char>) -> bool {
    &&& 1 <= name.len() <= 65535
    &&& forall|i: int| 0 <= i < name.len() ==> header_name_char(#[trigger] name[i])
}

/// Whether every character of `value` is one `http` accepts in a header
/// value: a tab, or any character from the space on other than DEL.
pub open spec fn header_value_accepted(value: Seq<char>) -> bool {
    forall|i: int| 0 <= i < value.len() ==> (#[trigger] value[i] == '\t' || ((value[i] as u32)
        >= 32 && (value[i] as u32) != 127))
}

/// Whether `HeaderName::from_bytes` accepts the bytes of `name`.
///
/// `http` refuses an empty name and one longer than 65535 bytes, and maps
/// every byte through its table of token characters (upper case to lower
/// case), refusing the name when a byte maps to none; the bytes of a
/// non-ASCII character are all at least 128 and map to none.
#[verifier::external_body]
fn header_name_is_valid(name: &str) -> (r: bool)
    ensures
        r == header_name_accepted(name@),
{
    http::HeaderName::from_bytes(name.as_bytes()).is_ok()
}

/// Whether `HeaderValue::from_str` accepts `value`.
///
/// `http` rejects a value exactly when one of its bytes is below 32 other
/// than a tab, or is 127; the bytes of a non-ASCII character are all at
/// least 128, so this is the per-character rule of [`header_value_accepted`].
#[verifier::external_body]
fn header_value_is_valid(value: &str) -> (r: bool)
    ensures
        r == header_value_accepted(value@),
{
    http::HeaderValue::from_str(value).is_ok()
}

/// Whether the metadata entry `(k, v)` can be sent as a header as it is.
pub open spec fn sendable(k: Seq<char>, v: Seq<char>) -> bool {
    header_name_accepted(k) && header_value_accepted(v)
}

/// The pairs of `s` that are sendable, in order.
pub open spec fn sendable_pairs(s: Seq<(Seq<char>, Seq<char>)>) -> Seq<(Seq<char>, Seq<char>)> {
    s.filter(|e: (Seq<char>, Seq<char>)| sendable(e.0, e.1))
}

/// The metadata entries that form valid header names and values, in order.
pub fn build_metadata_headers(metadata: &StringMap) -> (r: Vec<(String, String)>)
    ensures
        r@.map_values(|e: (String, String)| (e.0@, e.1@)) == sendable_pairs(metadata.pairs()),
{
    let mut out: Vec<(String, String)> = Vec::new();
    let n = metadata.len();
    let mut i: usize = 0;
    while i < n
        invariant
            n == metadata.pairs().len(),
            i <= n,
            out@.map_values(|e: (String, String)| (e.0@, e.1@)) == sendable_pairs(metadata.pairs().subrange(0, i as int)),
        decreases n - i,
    {
        let k = metadata.key_at(i);
        let v = metadata.value_at(i);
        let ghost prev = metadata.pairs().subrange(0, i as int);
        let ghost next = metadata.pairs().subrange(0, i + 1);
        assert(next.drop_last() =~= prev);
        assert(next.last() == metadata.pairs()[i as int]);
        proof {
            reveal_with_fuel(Seq::<(Seq<char>, Seq<char>)>::filter, 1);
        }
        if header_name_is_valid(k.as_str()) && header_value_is_valid(v.as_str()) {
            out.push((k.clone(), v.clone()));
        }
        assert(out@.map_values(|e: (String, String)| (e.0@, e.1@)) =~= sendable_pairs(next));
        i = i + 1;
    }
    assert(metadata.pairs().subrange(0, n as int) =~= metadata.pairs());
    out
}

/// The header name under which the entry `k` travels as binary metadata:
/// `x-`, `k` in lowercase, then `-bin`.
pub open spec fn binary_header_name(k: Seq<char>) -> Seq<char> {
    "x-"@ + spec_lowercase(k) + "-bin"@
}

/// The entries of `s` under their binary header names, those that form a
/// valid header kept, in order.
pub open spec fn binary_header_pairs(s: Seq<(Seq<char>, Seq<char>)>) -> Seq<(Seq<char>, Seq<char>)> {
    s.map_values(|e: (Seq<char>, Seq<char>)| (binary_header_name(e.0), e.1)).filter(
        |e: (Seq<char>, Seq<char>)| sendable(e.0, e.1),
    )
}

/// The views of a list of string pairs.
pub open spec fn pair_views(v: Seq<(String, String)>) -> Seq<(Seq<char>, Seq<char>)> {
    v.map_values(|e: (String, String)| (e.0@, e.1@))
}

/// `t` with the entry `e` put in: it replaces the value of the first entry
/// with the same name, in place, or comes last when no entry has that name.
pub open spec fn upsert(t: Seq<(Seq<char>, Seq<char>)>, e: (Seq<char>, Seq<char>)) -> Seq<(Seq<char>, Seq<char>)>
    decreases t.len(),
{
    if t.len() == 0 {
        seq![e]
    } else if t[0].0 == e.0 {
        seq![e] + t.drop_first()
    } else {
        seq![t[0]] + upsert(t.drop_first(), e)
    }
}

/// The header table that putting in the entries of `s` one after the other
/// gives, as `HeaderMap::insert` keeps them: one entry per name, the last
/// value put in for it, names in the order they first came.
pub open spec fn header_table(s: Seq<(Seq<char>, Seq<char>)>) -> Seq<(Seq<char>, Seq<char>)>
    decreases s.len(),
{
    if s.len() == 0 {
        Seq::empty()
    } else {
        upsert(header_table(s.drop_last()), s.last())
    }
}

proof fn lemma_upsert_found(t: Seq<(Seq<char>, Seq<char>)>, e: (Seq<char>, Seq<char>), j: int)
    requires
        0 <= j < t.len(),
        t[j].0 == e.0,
        forall|m: int| 0 <= m < j ==> t[m].0 != e.0,
    ensures
        upsert(t, e) == t.update(j, e),
    decreases j,
{
    if j == 0 {
        assert(seq![e] + t.drop_first() =~= t.update(0, e));
    } else {
        let d = t.drop_first();
        assert forall|m: int| 0 <= m < j - 1 implies d[m].0 != e.0 by {
            assert(d[m] == t[m + 1]);
        }
        lemma_upsert_found(d, e, j - 1);
        assert(seq![t[0]] + d.update(j - 1, e) =~= t.update(j, e));
    }
}

proof fn lemma_upsert_absent(t: Seq<(Seq<char>, Seq<char>)>, e: (Seq<char>, Seq<char>))
    requires
        forall|m: int| 0 <= m < t.len() ==> t[m].0 != e.0,
    ensures
        upsert(t, e) == t.push(e),
    decreases t.len(),
{
    if t.len() > 0 {
        let d = t.drop_first();
        assert forall|m: int| 0 <= m < d.len() implies d[m].0 != e.0 by {
            assert(d[m] == t[m + 1]);
        }
        lemma_upsert_absent(d, e);
        assert(seq![t[0]] + d.push(e) =~= t.push(e));
    } else {
        assert(seq![e] =~= t.push(e));
    }
}

/// Puts the header `(name, value)` into `table` as `HeaderMap::insert`
/// does.
fn put_header(table: &mut Vec<(String, String)>, name: String, value: String)
    ensures
        pair_views(final(table)@) == upsert(pair_views(old(table)@), (name@, value@)),
{
    let ghost t = pair_views(table@);
    let ghost e = (name@, value@);
    let mut j: usize = 0;
    while j < table.len()
        invariant
            j <= table@.len(),
            t == pair_views(table@),
            t == pair_views(old(table)@),
            e == (name@, value@),
            forall|m: int| 0 <= m < j ==> t[m].0 != e.0,
        decreases table@.len() - j,
    {
        if str_eq(table[j].0.as_str(), name.as_str()) {
            proof {
                assert(t[j as int].0 == e.0);
                lemma_upsert_found(t, e, j as int);
            }
            table.set(j, (name, value));
            proof {
                assert(pair_views(table@) =~= t.update(j as int, e));
            }
            return;
        }
        j = j + 1;
    }
    proof {
        lemma_upsert_absent(t, e);
    }
    table.push((name, value));
    proof {
        assert(pair_views(table@) =~= t.push(e));
    }
}

/// The metadata as binary headers: each key becomes
/// `x-<key in lowercase>-bin`, an entry whose name or value `http` refuses
/// is left out, and entries whose names then agree are kept once, with the
/// value put in last, as a `HeaderMap` keeps them.
pub fn metadata_to_headers(metadata: &StringMap) -> (r: Vec<(String, String)>)
    ensures
        pair_views(r@) == header_table(binary_header_pairs(metadata.pairs())),
{
    let mut out: Vec<(String, String)> = Vec::new();
    let n = metadata.len();
    let mut i: usize = 0;
    proof {
        reveal_strlit("x-");
        reveal_strlit("-bin");
        assert(pair_views(out@) =~= header_table(binary_header_pairs(metadata.pairs().subrange(0, 0))));
    }
    while i < n
        invariant
            n == metadata.pairs().len(),
            i <= n,
            pair_views(out@) == header_table(binary_header_pairs(metadata.pairs().subrange(0, i as int))),
        decreases n - i,
    {
        let k = metadata.key_at(i);
        let v = metadata.value_at(i);
        let ghost prev = metadata.pairs().subrange(0, i as int);
        let ghost next = metadata.pairs().subrange(0, i + 1);
        let ghost f = |e: (Seq<char>, Seq<char>)| (binary_header_name(e.0), e.1);
        assert(next.drop_last() =~= prev);
        assert(next.last() == metadata.pairs()[i as int]);
        assert(next.map_values(f) =~= prev.map_values(f).push(f(next.last())));
        proof {
            reveal_with_fuel(Seq::<(Seq<char>, Seq<char>)>::filter, 1);
        }
        let name = String::from_str("x-").concat(lowercase(k.as_str()).as_str()).concat("-bin");
        assert(name@ == binary_header_name(k@));
        assert(next.map_values(f).drop_last() =~= prev.map_values(f));
        if header_name_is_valid(name.as_str()) && header_value_is_valid(v.as_str()) {
            let ghost x = (name@, v@);
            proof {
                assert(binary_header_pairs(next) =~= binary_header_pairs(prev).push(x));
                assert(binary_header_pairs(prev).push(x).drop_last() =~= binary_header_pairs(prev));
            }
            put_header(&mut out, name, v.clone());
        } else {
            assert(binary_header_pairs(next) =~= binary_header_pairs(prev));
        }
        i = i + 1;
    }
    assert(metadata.pairs().subrange(0, n as int) =~= metadata.pairs());
    out
}

/// Builds gRPC metadata entry by entry.
#[derive(Debug)]
pub struct MetadataBuilder {
    metadata: StringMap,
}

impl MetadataBuilder {
    /// The metadata built so far.
    pub closed spec fn built(&self) -> Map<Seq<char>, Seq<char>> {
        self.metadata@
    }

    /// The entries built so far have distinct keys.
    pub closed spec fn wf(&self) -> bool {
        self.metadata.keys_unique()
    }

    /// A builder with no entry.
    pub fn new() -> (b: Self)
        ensures
            b.built() == Map::<Seq<char>, Seq<char>>::empty(),
            b.wf(),
    {
        MetadataBuilder { metadata: StringMap::new() }
    }

    /// Adds an entry, replacing an earlier value for the same key.
    pub fn add(self, key: &str, value: &str) -> (b: Self)
        ensures
            b.built() == self.built().insert(key@, value@),
            self.wf() ==> b.wf(),
    {
        let mut metadata = self.metadata;
        metadata.insert(owned(key), owned(value));
        MetadataBuilder { metadata }
    }

    /// The metadata built.
    pub fn build(self) -> (m: StringMap)
        ensures
            m@ == self.built(),
            self.wf() ==> m.keys_unique(),
    {
        self.metadata
    }
}


/// Entries as the receiving side sees them: every value is text.
pub open spec fn as_received(s: Seq<(Seq<char>, Seq<char>)>) -> Seq<(Seq<char>, Option<Seq<char>>)> {
    s.map_values(|e: (Seq<char>, Seq<char>)| (e.0, Some(e.1)))
}

/// Entries with distinct keys read back as the map they denote.
proof fn lemma_received_distinct(s: Seq<(Seq<char>, Seq<char>)>)
    requires
        s.map_values(|e: (Seq<char>, Seq<char>)| e.0).no_duplicates(),
    ensures
        metadata_of(as_received(s)) == entries_map(s),
    decreases s.len(),
{
    if s.len() == 0 {
        assert(metadata_of(as_received(s)) =~= entries_map(s));
    } else {
        let d = s.drop_last();
        let e = s.last();
        let keys = s.map_values(|e: (Seq<char>, Seq<char>)| e.0);
        assert(d.map_values(|e: (Seq<char>, Seq<char>)| e.0) =~= keys.drop_last());
        lemma_received_distinct(d);
        assert(as_received(s).drop_last() =~= as_received(d));
        assert(as_received(s).last() == (e.0, Some(e.1)));
        assert(s =~= d.push(e));
        assert forall|j: int| 0 <= j < d.len() implies d[j].0 != e.0 by {
            assert(keys[j] == d[j].0);
            assert(keys[s.len() - 1] == e.0);
        }
        lemma_lookup_absent(d, e.0);
        assert forall|k: Seq<char>| lookup(s, k) == (if k == e.0 { Some(e.1) } else { lookup(d, k) }) by {
            lemma_lookup_push(d, e, k);
        }
        assert(metadata_of(as_received(s)) =~= entries_map(s));
    }
}

/// Filtering entries that are all sendable keeps them all.
proof fn lemma_all_sendable(s: Seq<(Seq<char>, Seq<char>)>)
    requires
        forall|i: int| 0 <= i < s.len() ==> sendable(#[trigger] s[i].0, s[i].1),
    ensures
        sendable_pairs(s) == s,
    decreases s.len(),
{
    reveal_with_fuel(Seq::<(Seq<char>, Seq<char>)>::filter, 1);
    if s.len() > 0 {
        let d = s.drop_last();
        assert forall|i: int| 0 <= i < d.len() implies sendable(#[trigger] d[i].0, d[i].1) by {
            assert(d[i] == s[i]);
        }
        lemma_all_sendable(d);
        assert(sendable(s[s.len() - 1].0, s[s.len() - 1].1));
        assert(d.push(s.last()) =~= s);
    }
}

/// Metadata sent as headers and read back by the receiving side is the
/// metadata sent, when every entry can be sent as it is.
pub proof fn lemma_metadata_round_trip(m: StringMap)
    requires
        m.keys_unique(),
        forall|i: int| 0 <= i < m.pairs().len() ==> sendable(#[trigger] m.pairs()[i].0, m.pairs()[i].1),
    ensures
        metadata_of(as_received(sendable_pairs(m.pairs()))) == m@,
{
    lemma_all_sendable(m.pairs());
    lemma_received_distinct(m.pairs());
}

} // verus!
