//! Streaming calls: stream kinds, method path parsing, the registry of
//! active streams with its rules, and the events a stream reports.

use vstd::prelude::*;
use vstd::string::StringExecFns;
use crate::error::AppError;
use crate::ffi::error::FfiError;
use crate::grpc::metadata::{StringMap, lookup, lemma_lookup_first, lemma_lookup_absent, lemma_lookup_same_for_key, lemma_lookup_push};
use crate::text::{chars_of, string_of_chars, str_eq, owned};
use crate::grpc::transport::{encode_grpc_frame, frame_of, max_frame_payload, too_large_message};

verus! {

/// Type of gRPC stream.
#[derive(Debug, Clone, Copy, PartialEq, Eq, Structural)]
pub enum StreamType {
    /// Server streaming: server to client.
    ServerStreaming,
    /// Client streaming: client to server.
    ClientStreaming,
    /// Bidirectional streaming.
    Bidirectional,
}

impl StreamType {
    /// Whether the server sends a stream of messages.
    pub open spec fn spec_has_server_stream(self) -> bool {
        self is ServerStreaming || self is Bidirectional
    }

    /// Whether the client sends a stream of messages.
    pub open spec fn spec_has_client_stream(self) -> bool {
        self is ClientStreaming || self is Bidirectional
    }

    /// Returns true if this stream type receives messages from the server.
    pub fn has_server_stream(&self) -> (r: bool)
        ensures
            r == self.spec_has_server_stream(),
    {
        match self {
            StreamType::ServerStreaming | StreamType::Bidirectional => true,
            StreamType::ClientStreaming => false,
        }
    }

    /// Returns true if this stream type sends messages to the server.
    pub fn has_client_stream(&self) -> (r: bool)
        ensures
            r == self.spec_has_client_stream(),
    {
        match self {
            StreamType::ClientStreaming | StreamType::Bidirectional => true,
            StreamType::ServerStreaming => false,
        }
    }

    /// The wire name of the stream type.
    pub open spec fn name(self) -> Seq<char> {
        match self {
            StreamType::ServerStreaming => "server"@,
            StreamType::ClientStreaming => "client"@,
            StreamType::Bidirectional => "bidi"@,
        }
    }

    /// The wire name of the stream type (`server`, `client` or `bidi`).
    pub fn to_string(&self) -> (r: String)
        ensures
            r@ == self.name(),
    {
        match self {
            StreamType::ServerStreaming => String::from_str("server"),
            StreamType::ClientStreaming => String::from_str("client"),
            StreamType::Bidirectional => String::from_str("bidi"),
        }
    }
}

/// `s` without its leading slashes.
pub open spec fn without_leading_slashes(s: Seq<char>) -> Seq<char>
    decreases s.len(),
{
    if s.len() > 0 && s[0] == '/' {
        without_leading_slashes(s.drop_first())
    } else {
        s
    }
}

/// Index of the first `c` in `s`, or -1.
pub open spec fn first_index_of(s: Seq<char>, c: char) -> int
    decreases s.len(),
{
    if s.len() == 0 {
        -1
    } else if s[0] == c {
        0
    } else {
        let k = first_index_of(s.drop_first(), c);
        if k < 0 {
            -1
        } else {
            k + 1
        }
    }
}

/// Index of the last `c` in `s`, or -1.
pub open spec fn last_index_of(s: Seq<char>, c: char) -> int
    decreases s.len(),
{
    if s.len() == 0 {
        -1
    } else if s.last() == c {
        s.len() - 1
    } else {
        last_index_of(s.drop_last(), c)
    }
}

/// `s` split at index `i` around the separator there, when both parts are
/// non-empty.
pub open spec fn split_around(s: Seq<char>, i: int) -> Option<(Seq<char>, Seq<char>)> {
    if 0 < i && i < s.len() - 1 {
        Some((s.subrange(0, i), s.subrange(i + 1, s.len() as int)))
    } else {
        None
    }
}

/// The service and method a method path names: after dropping leading
/// slashes, split at the first `/`, or failing that at the last `.`, when
/// both parts are non-empty.
pub open spec fn parsed_method_path(method: Seq<char>) -> Option<(Seq<char>, Seq<char>)> {
    let n = without_leading_slashes(method);
    match split_around(n, first_index_of(n, '/')) {
        Some(p) => Some(p),
        None => split_around(n, last_index_of(n, '.')),
    }
}

proof fn lemma_without_leading_slashes(s: Seq<char>, a: int)
    requires
        0 <= a <= s.len(),
        forall|i: int| 0 <= i < a ==> s[i] == '/',
        a == s.len() || s[a] != '/',
    ensures
        without_leading_slashes(s) == s.subrange(a, s.len() as int),
    decreases a,
{
    if a == 0 {
        assert(s.subrange(0, s.len() as int) =~= s);
    } else {
        let t = s.drop_first();
        assert forall|i: int| 0 <= i < a - 1 implies t[i] == '/' by {
            assert(t[i] == s[i + 1]);
        }
        if a - 1 < t.len() {
            assert(t[a - 1] == s[a]);
        }
        lemma_without_leading_slashes(t, a - 1);
        assert(t.subrange(a - 1, t.len() as int) =~= s.subrange(a, s.len() as int));
    }
}

proof fn lemma_first_index_of(s: Seq<char>, c: char, i: int)
    requires
        0 <= i <= s.len(),
        forall|j: int| 0 <= j < i ==> s[j] != c,
        i == s.len() || s[i] == c,
    ensures
        first_index_of(s, c) == (if i == s.len() {
            -1
        } else {
            i
        }),
    decreases s.len(),
{
    if s.len() > 0 && i > 0 {
        let t = s.drop_first();
        assert forall|j: int| 0 <= j < i - 1 implies t[j] != c by {
            assert(t[j] == s[j + 1]);
        }
        if i < s.len() {
            assert(t[i - 1] == s[i]);
        }
        lemma_first_index_of(t, c, i - 1);
    }
}

proof fn lemma_last_index_of(s: Seq<char>, c: char, i: int)
    requires
        -1 <= i < s.len(),
        forall|j: int| i < j < s.len() ==> s[j] != c,
        i == -1 || s[i] == c,
    ensures
        last_index_of(s, c) == i,
    decreases s.len(),
{
    if s.len() > 0 && i < s.len() - 1 {
        let t = s.drop_last();
        assert forall|j: int| i < j < t.len() implies t[j] != c by {
            assert(t[j] == s[j]);
        }
        if i >= 0 {
            assert(t[i] == s[i]);
        }
        lemma_last_index_of(t, c, i);
    }
}

/// The error text for a method path that names no service and method.
pub open spec fn invalid_method_format_message(method: Seq<char>) -> Seq<char> {
    "Invalid method format: "@ + method + ". Expected 'service/method' or 'service.method'"@
}

/// Splits a method path in `service/method` or `service.method` form.
pub fn parse_method_path(method: &str) -> (r: Result<(String, String), AppError>)
    ensures
        match (r, parsed_method_path(method@)) {
            (Ok((s, m)), Some((ps, pm))) => s@ == ps && m@ == pm,
            (Err(AppError::GrpcMethodNotFound(e)), None) => e@ == invalid_method_format_message(method@),
            _ => false,
        },
{
    let v = chars_of(method);
    let n = v.len();
    let mut a: usize = 0;
    while a < n && v[a] == '/'
        invariant
            v@ == method@,
            n == v@.len(),
            a <= n,
            forall|i: int| 0 <= i < a ==> v@[i] == '/',
        decreases n - a,
    {
        a = a + 1;
    }
    let ghost norm = v@.subrange(a as int, n as int);
    proof {
        lemma_without_leading_slashes(v@, a as int);
    }
    let mut i: usize = a;
    while i < n && v[i] != '/'
        invariant
            v@ == method@,
            n == v@.len(),
            a <= i <= n,
            norm == v@.subrange(a as int, n as int),
            forall|j: int| a <= j < i ==> v@[j] != '/',
        decreases n - i,
    {
        i = i + 1;
    }
    proof {
        assert forall|j: int| 0 <= j < i - a implies norm[j] != '/' by {
            assert(norm[j] == v@[a + j]);
        }
        if i < n {
            assert(norm[i - a] == v@[i as int]);
        }
        lemma_first_index_of(norm, '/', i - a);
    }
    if i < n && i > a && i + 1 < n {
        assert(norm.subrange(0, i - a) =~= v@.subrange(a as int, i as int));
        assert(norm.subrange(i - a + 1, norm.len() as int) =~= v@.subrange(i + 1, n as int));
        return Ok((string_of_chars(&v, a, i), string_of_chars(&v, i + 1, n)));
    }
    let mut j: usize = n;
    while j > a && v[j - 1] != '.'
        invariant
            v@ == method@,
            n == v@.len(),
            a <= j <= n,
            norm == v@.subrange(a as int, n as int),
            forall|k: int| j <= k < n ==> v@[k] != '.',
        decreases j,
    {
        j = j - 1;
    }
    proof {
        assert forall|k: int| j - 1 - a < k < norm.len() implies norm[k] != '.' by {
            assert(norm[k] == v@[a + k]);
        }
        if j > a {
            assert(norm[j - 1 - a] == v@[j - 1]);
        }
        lemma_last_index_of(norm, '.', j - 1 - a);
    }
    if j > a && j - 1 > a && j < n {
        let d = j - 1;
        assert(norm.subrange(0, d - a) =~= v@.subrange(a as int, d as int));
        assert(norm.subrange(d - a + 1, norm.len() as int) =~= v@.subrange(d + 1, n as int));
        return Ok((string_of_chars(&v, a, d), string_of_chars(&v, d + 1, n)));
    }
    let msg = String::from_str("Invalid method format: ").concat(method).concat(
        ". Expected 'service/method' or 'service.method'",
    );
    Err(AppError::GrpcMethodNotFound(msg))
}

/// Handle to identify an active stream.
#[derive(Debug, Clone)]
pub struct StreamHandle {
    pub id: String,
    pub stream_type: StreamType,
}

/// The error text for an unknown stream id.
pub open spec fn stream_not_found_message(id: Seq<char>) -> Seq<char> {
    "Stream "@ + id + " not found"@
}

/// The active streams: for each stream id, its type and whether it still
/// accepts messages from the client.
pub struct StreamRegistry {
    records: Vec<(String, StreamType, bool)>,
}

/// Whether `c` is a lowercase hexadecimal digit.
pub open spec fn lower_hex_digit(c: char) -> bool {
    ('0' <= c && c <= '9') || ('a' <= c && c <= 'f')
}

/// Whether `s` is the text of a random (version 4) UUID as `uuid` writes
/// it: 36 characters, hyphens at 8, 13, 18 and 23, lowercase hexadecimal
/// digits elsewhere, the version digit `4` at 14 and one of `8`, `9`, `a`,
/// `b` at 19.
pub open spec fn is_v4_uuid_text(s: Seq<char>) -> bool {
    &&& s.len() == 36
    &&& forall|i: int| 0 <= i < 36 ==> (if i == 8 || i == 13 || i == 18 || i == 23 {
        #[trigger] s[i] == '-'
    } else {
        lower_hex_digit(s[i])
    })
    &&& s[14] == '4'
    &&& (s[19] == '8' || s[19] == '9' || s[19] == 'a' || s[19] == 'b')
}

/// A new random stream id.
///
/// Calls `uuid::Uuid::new_v4` and writes the id with `Display`, which
/// gives the hyphenated lowercase form; `new_v4` fixes the version nibble
/// to 4 and the two variant bits to `10`. The other digits are random, so
/// nothing more is stated, in particular not that the id is new.
#[verifier::external_body]
fn new_stream_id() -> (r: String)
    ensures
        is_v4_uuid_text(r@),
{
    uuid::Uuid::new_v4().to_string()
}

impl StreamRegistry {
    /// The records, in order, with ids as character sequences.
    pub closed spec fn pairs(&self) -> Seq<(Seq<char>, (StreamType, bool))> {
        self.records@.map_values(|r: (String, StreamType, bool)| (r.0@, (r.1, r.2)))
    }

    /// Well-formedness: no id is recorded twice.
    pub closed spec fn wf(&self) -> bool {
        forall|i: int, j: int|
            0 <= i < j < self.pairs().len() ==> self.pairs()[i].0 != self.pairs()[j].0
    }

    /// Number of active streams.
    pub closed spec fn size(&self) -> nat {
        self.pairs().len()
    }

    /// An empty registry.
    pub fn new() -> (r: Self)
        ensures
            r.wf(),
            r@ == Map::<Seq<char>, (StreamType, bool)>::empty(),
            r.size() == 0,
    {
        let r = StreamRegistry { records: Vec::new() };
        assert(r@ =~= Map::<Seq<char>, (StreamType, bool)>::empty());
        r
    }

    /// Index of the record for `id`.
    fn position(&self, id: &str) -> (r: Option<usize>)
        requires
            self.wf(),
        ensures
            match r {
                Some(i) => i < self.pairs().len() && self.pairs()[i as int].0 == id@ && lookup(
                    self.pairs(),
                    id@,
                ) == Some(self.pairs()[i as int].1),
                None => lookup(self.pairs(), id@) is None && forall|j: int|
                    0 <= j < self.pairs().len() ==> self.pairs()[j].0 != id@,
            },
    {
        let mut i: usize = 0;
        while i < self.records.len()
            invariant
                i <= self.records@.len(),
                forall|j: int| 0 <= j < i ==> self.pairs()[j].0 != id@,
            decreases self.records@.len() - i,
        {
            if str_eq(self.records[i].0.as_str(), id) {
                proof {
                    lemma_lookup_first(self.pairs(), id@, i as int);
                }
                return Some(i);
            }
            i = i + 1;
        }
        proof {
            lemma_lookup_absent(self.pairs(), id@);
        }
        None
    }

    /// Whether a stream with `id` is active.
    pub fn stream_exists(&self, id: &str) -> (r: bool)
        requires
            self.wf(),
        ensures
            r == self@.contains_key(id@),
    {
        self.position(id).is_some()
    }

    /// Number of active streams.
    pub fn active_stream_count(&self) -> (r: usize)
        ensures
            r == self.size(),
    {
        self.records.len()
    }

    /// Opens a stream of `stream_type` under a new random id and records
    /// it: the registry grows by one unless the id was already recorded,
    /// which the random id makes unlikely but does not rule out.
    pub fn open(&mut self, stream_type: StreamType) -> (id: String)
        requires
            old(self).wf(),
        ensures
            is_v4_uuid_text(id@),
            final(self).wf(),
            final(self)@ == old(self)@.insert(id@, (stream_type, stream_type.spec_has_client_stream())),
            final(self).size() == (if old(self)@.contains_key(id@) {
                old(self).size()
            } else {
                old(self).size() + 1
            }),
    {
        let id = new_stream_id();
        self.register(id.clone(), stream_type);
        id
    }

    /// Records a newly started stream; client and bidirectional streams
    /// accept messages.
    pub fn register(&mut self, id: String, stream_type: StreamType)
        requires
            old(self).wf(),
        ensures
            final(self).wf(),
            final(self)@ == old(self)@.insert(id@, (stream_type, stream_type.spec_has_client_stream())),
            final(self).size() == (if old(self)@.contains_key(id@) {
                old(self).size()
            } else {
                old(self).size() + 1
            }),
    {
        let ghost old_pairs = self.pairs();
        let ghost k = id@;
        let open = stream_type.has_client_stream();
        let ghost v = (stream_type, open);
        match self.position(id.as_str()) {
            Some(i) => {
                let ghost before = self.records@;
                self.records.set(i, (id, stream_type, open));
                proof {
                    let s = self.pairs();
                    assert(s =~= old_pairs.update(i as int, (k, v)));
                    assert forall|j: int| 0 <= j < i implies s[j].0 != k by {
                        assert(s[j] == old_pairs[j]);
                        assert(old_pairs[j].0 != old_pairs[i as int].0);
                    }
                    lemma_lookup_first(s, k, i as int);
                    assert forall|k2: Seq<char>| k2 != k implies lookup(s, k2) == lookup(old_pairs, k2) by {
                        lemma_lookup_same_for_key(s, old_pairs, k2);
                    }
                    assert(self@ =~= old(self)@.insert(k, v));
                }
            },
            None => {
                self.records.push((id, stream_type, open));
                proof {
                    let s = self.pairs();
                    assert(s =~= old_pairs.push((k, v)));
                    assert forall|k2: Seq<char>| lookup(s, k2) == (if k2 == k {
                        Some(v)
                    } else {
                        lookup(old_pairs, k2)
                    }) by {
                        lemma_lookup_push(old_pairs, (k, v), k2);
                    }
                    assert(self@ =~= old(self)@.insert(k, v));
                }
            },
        }
    }

    /// Checks that a message may be sent to stream `id`: it must exist, not
    /// be a server stream, and still accept messages.
    pub fn check_send(&self, id: &str) -> (r: Result<(), AppError>)
        requires
            self.wf(),
        ensures
            !self@.contains_key(id@) ==> (r matches Err(AppError::GrpcStreamFailed(m)) && m@
                == stream_not_found_message(id@)),
            self@.contains_key(id@) && self@[id@].0 is ServerStreaming ==> (r matches Err(
                AppError::GrpcStreamFailed(m),
            ) && m@ == "Cannot send messages to server streaming call"@),
            self@.contains_key(id@) && !(self@[id@].0 is ServerStreaming) && !self@[id@].1 ==> (
            r matches Err(AppError::GrpcStreamFailed(m)) && m@ == "Stream send channel not available"@),
            r is Ok <==> (self@.contains_key(id@) && !(self@[id@].0 is ServerStreaming)
                && self@[id@].1),
    {
        match self.position(id) {
            None => Err(AppError::GrpcStreamFailed(
                String::from_str("Stream ").concat(id).concat(" not found"),
            )),
            Some(i) => {
                if self.records[i].1 == StreamType::ServerStreaming {
                    Err(AppError::GrpcStreamFailed(
                        String::from_str("Cannot send messages to server streaming call"),
                    ))
                } else if !self.records[i].2 {
                    Err(AppError::GrpcStreamFailed(String::from_str("Stream send channel not available")))
                } else {
                    Ok(())
                }
            },
        }
    }

    /// Half-closes stream `id`: it stops accepting messages.
    pub fn end_stream(&mut self, id: &str) -> (r: Result<(), AppError>)
        requires
            old(self).wf(),
        ensures
            final(self).wf(),
            !old(self)@.contains_key(id@) ==> (r matches Err(AppError::GrpcStreamFailed(m)) && m@
                == stream_not_found_message(id@) && final(self)@ == old(self)@),
            old(self)@.contains_key(id@) ==> (r is Ok && final(self)@ == old(self)@.insert(
                id@,
                (old(self)@[id@].0, false),
            )),
            final(self).size() == old(self).size(),
    {
        let ghost old_pairs = self.pairs();
        match self.position(id) {
            None => Err(AppError::GrpcStreamFailed(
                String::from_str("Stream ").concat(id).concat(" not found"),
            )),
            Some(i) => {
                let ghost k = id@;
                let t = self.records[i].1;
                let key = self.records[i].0.clone();
                let ghost v = (t, false);
                self.records.set(i, (key, t, false));
                proof {
                    let s = self.pairs();
                    assert(s =~= old_pairs.update(i as int, (k, v)));
                    assert forall|j: int| 0 <= j < i implies s[j].0 != k by {
                        assert(s[j] == old_pairs[j]);
                        assert(old_pairs[j].0 != old_pairs[i as int].0);
                    }
                    lemma_lookup_first(s, k, i as int);
                    assert forall|k2: Seq<char>| k2 != k implies lookup(s, k2) == lookup(old_pairs, k2) by {
                        lemma_lookup_same_for_key(s, old_pairs, k2);
                    }
                    assert(self@ =~= old(self)@.insert(k, v));
                }
                Ok(())
            },
        }
    }

    /// Removes stream `id`.
    pub fn cancel_stream(&mut self, id: &str) -> (r: Result<(), AppError>)
        requires
            old(self).wf(),
        ensures
            final(self).wf(),
            !old(self)@.contains_key(id@) ==> (r matches Err(AppError::GrpcStreamFailed(m)) && m@
                == stream_not_found_message(id@) && final(self)@ == old(self)@ && final(self).size()
                == old(self).size()),
            old(self)@.contains_key(id@) ==> (r is Ok && final(self)@ == old(self)@.remove(id@)
                && final(self).size() + 1 == old(self).size()),
    {
        let ghost old_pairs = self.pairs();
        match self.position(id) {
            None => Err(AppError::GrpcStreamFailed(
                String::from_str("Stream ").concat(id).concat(" not found"),
            )),
            Some(i) => {
                let ghost k = id@;
                self.records.remove(i);
                proof {
                    let s = self.pairs();
                    assert(s =~= old_pairs.remove(i as int));
                    assert forall|j: int| 0 <= j < s.len() implies s[j].0 != k by {
                        if j < i {
                            assert(s[j] == old_pairs[j]);
                        } else {
                            assert(s[j] == old_pairs[j + 1]);
                        }
                    }
                    lemma_lookup_absent(s, k);
                    assert forall|k2: Seq<char>| k2 != k implies lookup(s, k2) == lookup(old_pairs, k2) by {
                        lemma_lookup_without(old_pairs, i as int, k2);
                    }
                    assert(self@ =~= old(self)@.remove(k));
                }
                Ok(())
            },
        }
    }
}

/// Removing an entry whose key is not `k` does not change what `k` maps to,
/// when keys are unique.
proof fn lemma_lookup_without<V>(s: Seq<(Seq<char>, V)>, i: int, k: Seq<char>)
    requires
        0 <= i < s.len(),
        s[i].0 != k,
    ensures
        lookup(s.remove(i), k) == lookup(s, k),
    decreases s.len(),
{
    if i == 0 {
        assert(s.remove(0) =~= s.drop_first());
    } else {
        let t = s.drop_first();
        assert(t[i - 1] == s[i]);
        lemma_lookup_without(t, i - 1, k);
        assert(s.remove(i)[0] == s[0]);
        assert(s.remove(i).drop_first() =~= t.remove(i - 1));
    }
}

impl View for StreamRegistry {
    type V = Map<Seq<char>, (StreamType, bool)>;

    open spec fn view(&self) -> Map<Seq<char>, (StreamType, bool)> {
        Map::new(|k: Seq<char>| lookup(self.pairs(), k) is Some, |k: Seq<char>| lookup(self.pairs(), k)->0)
    }
}

/// Checks what a new stream needs: a connection and a codec.
pub fn check_stream_prerequisites(has_channel: bool, has_codec: bool) -> (r: Result<(), AppError>)
    ensures
        !has_channel ==> (r matches Err(AppError::GrpcConnectionFailed(m)) && m@
            == "No gRPC connection available. Call grpc_connect first."@),
        has_channel && !has_codec ==> (r matches Err(AppError::GrpcConnectionFailed(m)) && m@
            == "No gRPC codec available. Call grpc_connect first."@),
        r is Ok <==> (has_channel && has_codec),
{
    if !has_channel {
        return Err(AppError::GrpcConnectionFailed(
            String::from_str("No gRPC connection available. Call grpc_connect first."),
        ));
    }
    if !has_codec {
        return Err(AppError::GrpcConnectionFailed(
            String::from_str("No gRPC codec available. Call grpc_connect first."),
        ));
    }
    Ok(())
}


/// The `serde_json::Value` type: a parsed JSON document, carried opaquely.
#[verifier::external_type_specification]
#[verifier::external_body]
pub struct ExJsonValue(serde_json::Value);

/// Whether `text` fails to parse as a JSON document, and with which error
/// text.
pub uninterp spec fn spec_json_parse_error(text: Seq<char>) -> Option<Seq<char>>;

/// Parses `text` as a JSON document with `serde_json::from_str`.
///
/// The contract names the outcome: success exactly when the named error is
/// absent, else the error's display text. The document itself is opaque.
#[verifier::external_body]
pub(crate) fn parse_json_value(text: &str) -> (r: Result<serde_json::Value, String>)
    ensures
        match (r, spec_json_parse_error(text@)) {
            (Ok(_), None) => true,
            (Err(e), Some(se)) => e@ == se,
            _ => false,
        },
{
    serde_json::from_str::<serde_json::Value>(text).map_err(|e| e.to_string())
}

/// The JSON `null` document.
///
/// Builds `serde_json::Value::Null`; the document is opaque here, so
/// nothing is stated of it.
#[verifier::external_body]
pub(crate) fn json_null() -> serde_json::Value {
    serde_json::Value::Null
}

/// Events emitted during streaming.
#[derive(Debug)]
pub enum StreamEvent {
    /// Message received from the server.
    Message { stream_id: String, data: serde_json::Value },
    /// Metadata received from the server.
    Metadata { stream_id: String, metadata: StringMap },
    /// Error occurred during streaming.
    Error { stream_id: String, message: String },
    /// Stream ended successfully.
    End { stream_id: String },
}

impl StreamEvent {
    /// The stream the event belongs to.
    pub open spec fn spec_stream_id(&self) -> Seq<char> {
        match self {
            StreamEvent::Message { stream_id, .. } => stream_id@,
            StreamEvent::Metadata { stream_id, .. } => stream_id@,
            StreamEvent::Error { stream_id, .. } => stream_id@,
            StreamEvent::End { stream_id } => stream_id@,
        }
    }

    /// Get the stream ID associated with this event.
    pub fn stream_id(&self) -> (r: &str)
        ensures
            r@ == self.spec_stream_id(),
    {
        match self {
            StreamEvent::Message { stream_id, .. } => stream_id.as_str(),
            StreamEvent::Metadata { stream_id, .. } => stream_id.as_str(),
            StreamEvent::Error { stream_id, .. } => stream_id.as_str(),
            StreamEvent::End { stream_id } => stream_id.as_str(),
        }
    }
}

/// The event for a response message whose JSON reading gave `parsed`: the
/// message with that document, or the error that ends the stream.
pub fn message_event_of(stream_id: &str, parsed: Result<serde_json::Value, String>) -> (r: Result<StreamEvent, AppError>)
    ensures
        match parsed {
            Ok(v) => r matches Ok(StreamEvent::Message { stream_id: id, data }) && id@ == stream_id@ && data == v,
            Err(pe) => r matches Err(AppError::GrpcStreamFailed(m)) && m@ == "Failed to parse JSON response: "@ + pe@,
        },
{
    match parsed {
        Ok(data) => Ok(StreamEvent::Message { stream_id: owned(stream_id), data }),
        Err(pe) => Err(AppError::GrpcStreamFailed(
            String::from_str("Failed to parse JSON response: ").concat(pe.as_str()),
        )),
    }
}

/// The event for a decoded response message, or the error that ends the
/// stream: a decode failure or a payload that is not JSON. The document is
/// what `serde_json` reads from the payload, then as [`message_event_of`]
/// says.
pub fn message_event(stream_id: &str, decoded: Result<String, FfiError>) -> (r: Result<StreamEvent, AppError>)
    ensures
        match decoded {
            Err(e) => r matches Err(AppError::GrpcStreamFailed(m)) && m@ == "Failed to decode response: "@ + e.message(),
            Ok(j) => match spec_json_parse_error(j@) {
                Some(pe) => r matches Err(AppError::GrpcStreamFailed(m)) && m@ == "Failed to parse JSON response: "@ + pe,
                None => r matches Ok(StreamEvent::Message { stream_id: id, .. }) && id@ == stream_id@,
            },
        },
{
    match decoded {
        Err(e) => Err(AppError::GrpcStreamFailed(
            String::from_str("Failed to decode response: ").concat(e.to_string().as_str()),
        )),
        Ok(j) => message_event_of(stream_id, parse_json_value(j.as_str())),
    }
}

/// The event announcing response metadata, when there is any.
pub fn metadata_event(stream_id: &str, metadata: StringMap) -> (r: Option<StreamEvent>)
    ensures
        metadata.pairs().len() == 0 ==> r is None,
        metadata.pairs().len() > 0 ==> (r matches Some(StreamEvent::Metadata { stream_id: id, metadata: m })
            && id@ == stream_id@ && m@ == metadata@),
{
    if metadata.is_empty() {
        None
    } else {
        Some(StreamEvent::Metadata { stream_id: owned(stream_id), metadata })
    }
}

/// The event that closes a server or bidirectional stream: the end, or the
/// error that stopped it.
pub fn completion_event(stream_id: &str, outcome: Result<(), AppError>) -> (r: StreamEvent)
    ensures
        match outcome {
            Ok(()) => r matches StreamEvent::End { stream_id: id } && id@ == stream_id@,
            Err(e) => r matches StreamEvent::Error { stream_id: id, message } && id@ == stream_id@
                && message@ == e.message(),
        },
{
    match outcome {
        Ok(()) => StreamEvent::End { stream_id: owned(stream_id) },
        Err(e) => StreamEvent::Error { stream_id: owned(stream_id), message: e.to_string() },
    }
}

/// The single response of a client stream whose JSON reading gave
/// `parsed`: that document, or the error that ends the stream.
pub fn client_stream_value(parsed: Result<serde_json::Value, String>) -> (r: Result<serde_json::Value, AppError>)
    ensures
        match parsed {
            Ok(v) => r == Ok::<serde_json::Value, AppError>(v),
            Err(pe) => r matches Err(AppError::GrpcStreamFailed(m)) && m@ == "Failed to parse JSON response: "@ + pe@,
        },
{
    match parsed {
        Ok(v) => Ok(v),
        Err(pe) => Err(AppError::GrpcStreamFailed(
            String::from_str("Failed to parse JSON response: ").concat(pe.as_str()),
        )),
    }
}

/// The single response of a client stream: JSON `null` for an empty body,
/// otherwise the decoded message read by `serde_json`, then as
/// [`client_stream_value`] says.
pub fn client_stream_response(decoded: Option<Result<String, FfiError>>) -> (r: Result<serde_json::Value, AppError>)
    ensures
        match decoded {
            None => r is Ok,
            Some(Err(e)) => r matches Err(AppError::GrpcStreamFailed(m)) && m@ == "Failed to decode response: "@ + e.message(),
            Some(Ok(j)) => match spec_json_parse_error(j@) {
                Some(pe) => r matches Err(AppError::GrpcStreamFailed(m)) && m@ == "Failed to parse JSON response: "@ + pe,
                None => r is Ok,
            },
        },
{
    match decoded {
        None => Ok(json_null()),
        Some(Err(e)) => Err(AppError::GrpcStreamFailed(
            String::from_str("Failed to decode response: ").concat(e.to_string().as_str()),
        )),
        Some(Ok(j)) => client_stream_value(parse_json_value(j.as_str())),
    }
}

/// The events that close a client stream: its response and the end, or the
/// error that stopped it.
pub fn client_completion_events(stream_id: &str, outcome: Result<serde_json::Value, AppError>) -> (r: Vec<StreamEvent>)
    ensures
        match outcome {
            Ok(v) => r@.len() == 2 && (r@[0] matches StreamEvent::Message { stream_id: id, data } && id@ == stream_id@
                && data == v)
                && (r@[1] matches StreamEvent::End { stream_id: id } && id@ == stream_id@),
            Err(e) => r@.len() == 1 && (r@[0] matches StreamEvent::Error { stream_id: id, message } && id@ == stream_id@
                && message@ == e.message()),
        },
{
    let mut events: Vec<StreamEvent> = Vec::new();
    match outcome {
        Ok(data) => {
            events.push(StreamEvent::Message { stream_id: owned(stream_id), data });
            events.push(StreamEvent::End { stream_id: owned(stream_id) });
        },
        Err(e) => {
            events.push(StreamEvent::Error { stream_id: owned(stream_id), message: e.to_string() });
        },
    }
    events
}

/// Adds one encoded client-stream message to the request body as its own
/// gRPC frame; a message too large for a frame ends the stream and leaves
/// the body as it was.
pub fn append_stream_message(body: &mut Vec<u8>, message: &[u8]) -> (r: Result<(), AppError>)
    ensures
        message@.len() <= max_frame_payload() ==> r is Ok && final(body)@ == old(body)@ + frame_of(message@),
        message@.len() > max_frame_payload() ==> (r matches Err(AppError::GrpcStreamFailed(m)) && m@
            == "Failed to frame request: "@ + too_large_message(message@.len())) && final(body)@ == old(body)@,
{
    match encode_grpc_frame(message) {
        Ok(frame) => {
            let ghost before = body@;
            let mut i: usize = 0;
            while i < frame.len()
                invariant
                    i <= frame@.len(),
                    body@ == before + frame@.subrange(0, i as int),
                decreases frame@.len() - i,
            {
                body.push(frame[i]);
                proof {
                    assert(frame@.subrange(0, i + 1) =~= frame@.subrange(0, i as int).push(frame@[i as int]));
                }
                i = i + 1;
            }
            proof {
                assert(frame@.subrange(0, frame@.len() as int) =~= frame@);
            }
            Ok(())
        },
        Err(e) => {
            let text = match e {
                crate::grpc::transport::TransportError::RequestError(m) => m,
                _ => String::new(),
            };
            Err(AppError::GrpcStreamFailed(String::from_str("Failed to frame request: ").concat(text.as_str())))
        },
    }
}

/// The error that ends a stream whose request message could not be
/// encoded by the codec.
pub fn encode_failure(e: FfiError) -> (r: AppError)
    ensures
        r matches AppError::GrpcStreamFailed(m) && m@ == "Failed to encode request: "@ + e.message(),
{
    AppError::GrpcStreamFailed(String::from_str("Failed to encode request: ").concat(e.to_string().as_str()))
}

} // verus!
