//! The trading client: canonical query-string construction, request
//! signing, and the builders that turn a call's arguments into a fully
//! signed request, plus the classification of responses.
//!
//! The exchange authenticates a request by an HMAC-SHA256 code over the
//! canonical serialization of its parameters: entries sorted by key in
//! byte-wise lexicographic order, joined as `key=value` pairs with `&`,
//! with the lowercase hex digest appended as a final `signature` parameter.
//! The sort, the join and the hex alphabet are verified here; the digest
//! itself is computed by the `hmac` and `sha2` crates behind a trusted
//! wrapper.

use vstd::prelude::*;
use vstd::relations::{sorted_by, total_ordering};
use vstd::seq_lib::lemma_sorted_unique;
use vstd::seq_lib::to_multiset_insert;
use crate::strutil::{
    lex_le, str_eq, str_lex_le, u64_to_string, dec_str, spec_is_decimal, is_decimal_str,
    lemma_lex_le_reflexive, lemma_lex_le_antisymmetric, lemma_lex_le_transitive,
    lemma_lex_le_connected,
};
use crate::json::{
    json_parse, json_get, json_as_string, json_as_u64, json_as_i64, json_as_bool, json_as_array,
};
use super::types::{Balance, AccountInfo, OrderResponse, OrderStatus, spec_status_of_wire};
use vstd::string::StringExecFns;

verus! {

/// The view of one parameter: key and value as character sequences.
pub open spec fn pview(p: (String, String)) -> (Seq<char>, Seq<char>) {
    (p.0@, p.1@)
}

/// The views of a parameter list, in the order given.
pub open spec fn spec_params_view(ps: Seq<(String, String)>) -> Seq<(Seq<char>, Seq<char>)> {
    ps.map_values(|p: (String, String)| pview(p))
}

/// Ordering of parameters on the wire: by key, lexicographically; between
/// equal keys, by value, so that the canonical form of a parameter multiset
/// is unique.
pub open spec fn pair_le(x: (Seq<char>, Seq<char>), y: (Seq<char>, Seq<char>)) -> bool {
    if x.0 == y.0 {
        lex_le(x.1, y.1)
    } else {
        lex_le(x.0, y.0)
    }
}

/// `pair_le` as a relation value, for vstd's sorting vocabulary.
pub open spec fn pair_leq() -> spec_fn((Seq<char>, Seq<char>), (Seq<char>, Seq<char>)) -> bool {
    |x: (Seq<char>, Seq<char>), y: (Seq<char>, Seq<char>)| pair_le(x, y)
}

/// The parameter ordering is total: sorting by it has exactly one result.
pub proof fn lemma_pair_leq_total()
    ensures
        total_ordering(pair_leq()),
{
    let leq = pair_leq();
    assert forall|x: (Seq<char>, Seq<char>)| #[trigger] leq(x, x) by {
        lemma_lex_le_reflexive(x.1);
    }
    assert forall|x: (Seq<char>, Seq<char>), y: (Seq<char>, Seq<char>)|
        #[trigger] leq(x, y) && #[trigger] leq(y, x) implies x == y by {
        if x.0 == y.0 {
            lemma_lex_le_antisymmetric(x.1, y.1);
        } else {
            lemma_lex_le_antisymmetric(x.0, y.0);
        }
    }
    assert forall|x: (Seq<char>, Seq<char>), y: (Seq<char>, Seq<char>), z: (Seq<char>, Seq<char>)|
        #[trigger] leq(x, y) && #[trigger] leq(y, z) implies leq(x, z) by {
        if x.0 == y.0 && y.0 == z.0 {
            lemma_lex_le_transitive(x.1, y.1, z.1);
        } else if x.0 == y.0 {
            // key comparison decides between y and z, and x's key equals y's
        } else if y.0 == z.0 {
        } else {
            lemma_lex_le_transitive(x.0, y.0, z.0);
            if x.0 == z.0 {
                lemma_lex_le_antisymmetric(x.0, y.0);
            }
        }
    }
    assert forall|x: (Seq<char>, Seq<char>), y: (Seq<char>, Seq<char>)|
        #[trigger] leq(x, y) || #[trigger] leq(y, x) by {
        if x.0 == y.0 {
            lemma_lex_le_connected(x.1, y.1);
        } else {
            lemma_lex_le_connected(x.0, y.0);
        }
    }
}

/// One parameter as it appears on the wire: `key=value`.
pub open spec fn pair_str(p: (Seq<char>, Seq<char>)) -> Seq<char> {
    p.0 + "="@ + p.1
}

/// Parameters joined with `&`, in the order given.
pub open spec fn join_amp(ps: Seq<(Seq<char>, Seq<char>)>) -> Seq<char>
    decreases ps.len(),
{
    if ps.len() == 0 {
        Seq::empty()
    } else if ps.len() == 1 {
        pair_str(ps[0])
    } else {
        join_amp(ps.drop_last()) + "&"@ + pair_str(ps.last())
    }
}

/// The exchange-mandated canonical query string of a parameter list:
/// entries sorted by the total parameter ordering, joined as
/// `key=value&key=value&...`.
pub open spec fn spec_canonical_query(ps: Seq<(Seq<char>, Seq<char>)>) -> Seq<char> {
    join_amp(ps.sort_by(pair_leq()))
}

/// Law: the canonical order lists keys in non-decreasing lexicographic
/// order and keeps exactly the parameters it was given.
pub proof fn lemma_canonical_keys_sorted(ps: Seq<(Seq<char>, Seq<char>)>)
    ensures
        forall|a: int, b: int|
            0 <= a < b < ps.sort_by(pair_leq()).len() ==> lex_le(
                #[trigger] ps.sort_by(pair_leq())[a].0,
                #[trigger] ps.sort_by(pair_leq())[b].0,
            ),
        ps.sort_by(pair_leq()).to_multiset() == ps.to_multiset(),
{
    lemma_pair_leq_total();
    ps.lemma_sort_by_ensures(pair_leq());
    let s = ps.sort_by(pair_leq());
    assert forall|a: int, b: int| 0 <= a < b < s.len() implies lex_le(
        #[trigger] s[a].0,
        #[trigger] s[b].0,
    ) by {
        assert(pair_leq()(s[a], s[b]));
        if s[a].0 == s[b].0 {
            lemma_lex_le_reflexive(s[a].0);
        }
    }
}

/// Law: the canonical query string depends only on which parameters are
/// present, never on the order they were supplied in; canonicalizing the
/// same mapping again round-trips to the same string.
pub proof fn lemma_canonical_query_order_insensitive(
    p1: Seq<(Seq<char>, Seq<char>)>,
    p2: Seq<(Seq<char>, Seq<char>)>,
)
    requires
        p1.to_multiset() == p2.to_multiset(),
    ensures
        spec_canonical_query(p1) == spec_canonical_query(p2),
{
    lemma_pair_leq_total();
    p1.lemma_sort_by_ensures(pair_leq());
    p2.lemma_sort_by_ensures(pair_leq());
    lemma_sorted_unique(p1.sort_by(pair_leq()), p2.sort_by(pair_leq()), pair_leq());
}

/// Exec comparison matching `pair_le` on the views.
fn pair_le_exec(a: &(String, String), b: &(String, String)) -> (r: bool)
    ensures
        r == pair_le(pview(*a), pview(*b)),
{
    if str_eq(a.0.as_str(), b.0.as_str()) {
        str_lex_le(a.1.as_str(), b.1.as_str())
    } else {
        str_lex_le(a.0.as_str(), b.0.as_str())
    }
}

/// Where to insert `p` into an already sorted list to keep it sorted.
fn insertion_point(sorted: &Vec<(String, String)>, p: &(String, String)) -> (pos: usize)
    requires
        sorted_by(spec_params_view(sorted@), pair_leq()),
    ensures
        pos <= sorted@.len(),
        forall|j: int| 0 <= j < pos ==> pair_le(pview(#[trigger] sorted@[j]), pview(*p)),
        forall|j: int| pos <= j < sorted@.len() ==> pair_le(pview(*p), pview(#[trigger] sorted@[j])),
{
    let len = sorted.len();
    let mut pos: usize = 0;
    while pos < len
        invariant
            len == sorted@.len(),
            0 <= pos <= len,
            sorted_by(spec_params_view(sorted@), pair_leq()),
            forall|j: int| 0 <= j < pos ==> pair_le(pview(#[trigger] sorted@[j]), pview(*p)),
        decreases len - pos,
    {
        if !pair_le_exec(&sorted[pos], p) {
            proof {
                lemma_pair_leq_total();
                let leq = pair_leq();
                let a = pview(sorted@[pos as int]);
                let b = pview(*p);
                if a.0 == b.0 {
                    lemma_lex_le_connected(a.1, b.1);
                } else {
                    lemma_lex_le_connected(a.0, b.0);
                }
                assert(leq(pview(*p), pview(sorted@[pos as int])));
                assert forall|j: int| pos <= j < sorted@.len()
                    implies pair_le(pview(*p), pview(#[trigger] sorted@[j])) by {
                    if j > pos {
                        assert(spec_params_view(sorted@)[pos as int] == pview(sorted@[pos as int]));
                        assert(spec_params_view(sorted@)[j] == pview(sorted@[j]));
                        assert(leq(pview(sorted@[pos as int]), pview(sorted@[j])));
                    }
                }
            }
            return pos;
        }
        pos = pos + 1;
    }
    pos
}

/// Credentials and endpoint of one client instance. The secret key is held
/// only to compute signatures; it is never placed on the wire.
pub struct TestnetTrader {
    pub api_key: String,
    pub secret_key: String,
    pub base_url: String,
}

impl TestnetTrader {
    /// A client against the default test endpoint.
    pub fn new(api_key: String, secret_key: String) -> (r: Self)
        ensures
            r.api_key@ == api_key@,
            r.secret_key@ == secret_key@,
            r.base_url@ == "https://testnet.binance.vision"@,
    {
        TestnetTrader {
            api_key,
            secret_key,
            base_url: "https://testnet.binance.vision".to_owned(),
        }
    }

    /// The same credentials against another base URL (for mock servers).
    pub fn with_base_url(self, base_url: String) -> (r: Self)
        ensures
            r.api_key@ == self.api_key@,
            r.secret_key@ == self.secret_key@,
            r.base_url@ == base_url@,
    {
        TestnetTrader { api_key: self.api_key, secret_key: self.secret_key, base_url }
    }

    /// The canonical query string of `params`: sorted by key (values break
    /// ties), joined as `key=value` with `&`. Pure in its input; insertion
    /// order of the parameter list does not affect the result.
    pub fn build_query_string(&self, params: &Vec<(String, String)>) -> (r: String)
        ensures
            r@ == spec_canonical_query(spec_params_view(params@)),
    {
        let ghost target = spec_params_view(params@).sort_by(pair_leq());
        let mut sorted: Vec<(String, String)> = Vec::new();
        let mut i: usize = 0;
        proof {
            assert(spec_params_view(sorted@) =~= Seq::<(Seq<char>, Seq<char>)>::empty());
            assert(spec_params_view(params@.take(0)) =~= Seq::<(Seq<char>, Seq<char>)>::empty());
        }
        while i < params.len()
            invariant
                0 <= i <= params@.len(),
                sorted_by(spec_params_view(sorted@), pair_leq()),
                spec_params_view(sorted@).to_multiset() == spec_params_view(
                    params@.take(i as int),
                ).to_multiset(),
            decreases params@.len() - i,
        {
            let p = (params[i].0.clone(), params[i].1.clone());
            proof {
                assert(pview(p) == pview(params@[i as int]));
            }
            let pos = insertion_point(&sorted, &p);
            let ghost old_sorted = sorted@;
            sorted.insert(pos, p);
            proof {
                let leq = pair_leq();
                let ov = spec_params_view(old_sorted);
                let nv = spec_params_view(sorted@);
                assert(sorted@ == old_sorted.insert(pos as int, p));
                assert(nv =~= ov.insert(pos as int, pview(p)));
                // sortedness of the new list
                lemma_pair_leq_total();
                assert forall|a: int, b: int| 0 <= a < b < nv.len()
                    implies leq(nv[a], nv[b]) by {
                    if a < pos && b < pos {
                        assert(ov[a] == nv[a] && ov[b] == nv[b]);
                    } else if a < pos && b == pos {
                        assert(nv[a] == pview(old_sorted[a]));
                    } else if a < pos && b > pos {
                        assert(nv[a] == ov[a] && nv[b] == ov[b - 1]);
                    } else if a == pos && b > pos {
                        assert(nv[b] == pview(old_sorted[b - 1]));
                    } else {
                        assert(nv[a] == ov[a - 1] && nv[b] == ov[b - 1]);
                    }
                }
                // the multiset gained exactly the new pair
                to_multiset_insert(ov, pos as int, pview(p));
                assert(params@.take(i as int + 1) =~= params@.take(i as int).push(
                    params@[i as int],
                ));
                assert(spec_params_view(params@.take(i as int + 1)) =~= spec_params_view(
                    params@.take(i as int),
                ).push(pview(params@[i as int])));
                vstd::seq_lib::to_multiset_build(
                    spec_params_view(params@.take(i as int)),
                    pview(params@[i as int]),
                );
            }
            i = i + 1;
        }
        proof {
            assert(params@.take(params@.len() as int) =~= params@);
            lemma_pair_leq_total();
            spec_params_view(params@).lemma_sort_by_ensures(pair_leq());
            lemma_sorted_unique(spec_params_view(sorted@), target, pair_leq());
            assert(spec_params_view(sorted@) == target);
        }
        // join the sorted pairs
        let mut out = String::new();
        let mut k: usize = 0;
        proof {
            assert(target.take(0) =~= Seq::<(Seq<char>, Seq<char>)>::empty());
        }
        while k < sorted.len()
            invariant
                0 <= k <= sorted@.len(),
                spec_params_view(sorted@) == target,
                out@ == join_amp(target.take(k as int)),
            decreases sorted@.len() - k,
    {
            if k > 0 {
                out.append("&");
            }
            out.append(sorted[k].0.as_str());
            out.append("=");
            out.append(sorted[k].1.as_str());
            proof {
                let t1 = target.take(k as int + 1);
                assert(t1.drop_last() =~= target.take(k as int));
                assert(t1.last() == pview(sorted@[k as int]));
                if k == 0 {
                    assert(join_amp(t1) == pair_str(t1[0]));
                }
            }
            k = k + 1;
        }
        proof {
            assert(target.take(sorted@.len() as int) =~= target);
        }
        out
    }

    /// The authentication signature for a canonical query string: the
    /// lowercase hex encoding of the HMAC-SHA256 code computed with the
    /// client's secret key. Always exactly 64 lowercase hex characters,
    /// for a secret of any length, and a function of (secret, query
    /// string) alone — calling it twice on the same input yields the
    /// same signature.
    pub fn sign(&self, query_string: &str) -> (r: String)
        ensures
            r@ == spec_signature(self.secret_key@, query_string@),
            r@.len() == 64,
            forall|i: int| 0 <= i < r@.len() ==> is_lower_hex_char(#[trigger] r@[i]),
    {
        let digest = hmac_sha256(self.secret_key.as_str(), query_string);
        proof {
            lemma_hex_encode_shape(digest@);
        }
        hex_encode(&digest)
    }

    /// The canonical query string of `params` with `&signature=<sig>`
    /// appended, the exact text a signed call puts on the wire.
    pub fn signed_query(&self, params: &Vec<(String, String)>) -> (r: String)
        ensures
            r@ == spec_signed_query(self.secret_key@, spec_params_view(params@)),
    {
        let canon = self.build_query_string(params);
        let sig = self.sign(canon.as_str());
        let mut out = canon;
        out.append("&signature=");
        out.append(sig.as_str());
        out
    }
}

/// A lowercase hexadecimal digit.
pub open spec fn is_lower_hex_char(c: char) -> bool {
    ('0' <= c && c <= '9') || ('a' <= c && c <= 'f')
}

/// The lowercase hex digit of a nibble value (defined on 0..16).
pub open spec fn hex_digit(n: u8) -> char {
    if n == 0 {
        '0'
    } else if n == 1 {
        '1'
    } else if n == 2 {
        '2'
    } else if n == 3 {
        '3'
    } else if n == 4 {
        '4'
    } else if n == 5 {
        '5'
    } else if n == 6 {
        '6'
    } else if n == 7 {
        '7'
    } else if n == 8 {
        '8'
    } else if n == 9 {
        '9'
    } else if n == 10 {
        'a'
    } else if n == 11 {
        'b'
    } else if n == 12 {
        'c'
    } else if n == 13 {
        'd'
    } else if n == 14 {
        'e'
    } else {
        'f'
    }
}

/// The lowercase hex encoding of a byte sequence, high nibble first.
pub open spec fn spec_hex_encode(bytes: Seq<u8>) -> Seq<char>
    decreases bytes.len(),
{
    if bytes.len() == 0 {
        Seq::empty()
    } else {
        spec_hex_encode(bytes.drop_last()) + seq![
            hex_digit(bytes.last() / 16),
            hex_digit(bytes.last() % 16),
        ]
    }
}

/// The hex encoding is two characters per byte, all lowercase hex digits.
pub proof fn lemma_hex_encode_shape(bytes: Seq<u8>)
    ensures
        spec_hex_encode(bytes).len() == 2 * bytes.len(),
        forall|i: int|
            0 <= i < 2 * bytes.len() ==> is_lower_hex_char(#[trigger] spec_hex_encode(bytes)[i]),
    decreases bytes.len(),
{
    if bytes.len() > 0 {
        lemma_hex_encode_shape(bytes.drop_last());
    }
}

/// What the keyed digest of (key, message) is. The code is a pure function
/// of its two arguments; its definition is the HMAC-SHA256 construction,
/// which this library calls rather than restates.
pub uninterp spec fn hmac_sha256_of(key: Seq<char>, message: Seq<char>) -> Seq<u8>;

/// The signature of a message under a secret: the lowercase hex encoding
/// of the 32-byte HMAC-SHA256 code.
pub open spec fn spec_signature(secret: Seq<char>, message: Seq<char>) -> Seq<char> {
    spec_hex_encode(hmac_sha256_of(secret, message))
}

/// A canonical query string with its signature parameter appended.
pub open spec fn spec_signed_query(secret: Seq<char>, ps: Seq<(Seq<char>, Seq<char>)>) -> Seq<char> {
    let canon = spec_canonical_query(ps);
    canon + "&signature="@ + spec_signature(secret, canon)
}

/// Relies on the `hmac` crate's `Hmac<Sha256>` (via `KeyInit::new_from_slice`,
/// `Mac::update` and `Mac::finalize`): the 32-byte authentication code over
/// the message's UTF-8 bytes, keyed by the secret's UTF-8 bytes, a function
/// of those two inputs alone. HMAC accepts a key of any length, so the
/// construction cannot fail.
#[verifier::external_body]
fn hmac_sha256(key: &str, message: &str) -> (r: Vec<u8>)
    ensures
        r@ == hmac_sha256_of(key@, message@),
        r@.len() == 32,
{
    let mut mac = <hmac::Hmac<sha2::Sha256> as hmac::KeyInit>::new_from_slice(key.as_bytes())
        .expect("HMAC accepts keys of any length");
    hmac::Mac::update(&mut mac, message.as_bytes());
    hmac::Mac::finalize(mac).into_bytes().to_vec()
}

/// Relies on `hex::encode`: two lowercase hex digits per byte, high nibble
/// first.
#[verifier::external_body]
fn hex_encode(bytes: &Vec<u8>) -> (r: String)
    ensures
        r@ == spec_hex_encode(bytes@),
{
    hex::encode(bytes)
}

/// The HTTP method of a REST call.
#[derive(Debug, Clone, Copy, PartialEq, Eq, Structural)]
pub enum HttpMethod {
    Get,
    Post,
    Delete,
}

/// One fully built REST call, ready for a transport: method, endpoint
/// path, and the signed canonical query string. GET calls send the query
/// in the URL; POST and DELETE calls send it as a form-encoded body, with
/// the API key attached as a header either way.
#[derive(Debug, Clone)]
pub struct RestRequest {
    pub method: HttpMethod,
    pub path: String,
    pub query: String,
}

/// A REST call's failure, per the error taxonomy: the peer rejected the
/// request (the raw response body is preserved verbatim), the response
/// body did not decode (raw text preserved), or the request never produced
/// a response at all.
#[derive(Debug, Clone)]
pub enum TradeError {
    Api(String),
    Parse(String),
    Transport(String),
}

impl TradeError {
    /// A diagnostic line for this failure. The original response text is
    /// always contained verbatim.
    pub fn message(&self) -> (r: String)
        ensures
            match self {
                TradeError::Api(m) => r@ == "API Error: "@ + m@,
                TradeError::Parse(m) => r@ == "Parse Error: "@ + m@,
                TradeError::Transport(m) => r@ == "Transport Error: "@ + m@,
            },
    {
        match self {
            TradeError::Api(m) => {
                let mut s = "API Error: ".to_owned();
                s.append(m.as_str());
                s
            },
            TradeError::Parse(m) => {
                let mut s = "Parse Error: ".to_owned();
                s.append(m.as_str());
                s
            },
            TradeError::Transport(m) => {
                let mut s = "Transport Error: ".to_owned();
                s.append(m.as_str());
                s
            },
        }
    }
}

/// Whether an HTTP status code denotes success.
pub open spec fn spec_is_success(status: u16) -> bool {
    200 <= status < 300
}

/// Classify a response: a success status hands the body on for decoding;
/// any other status is an API rejection that carries the raw body
/// verbatim, so the exchange's diagnostic is never swallowed.
pub fn check_status(status: u16, body: String) -> (r: Result<String, TradeError>)
    ensures
        match r {
            Ok(b) => spec_is_success(status) && b@ == body@,
            Err(e) => !spec_is_success(status) && (e matches TradeError::Api(m) && m@ == body@),
        },
{
    if 200 <= status && status < 300 {
        Ok(body)
    } else {
        Err(TradeError::Api(body))
    }
}

impl TestnetTrader {
    /// The signed account-information call: GET `/api/v3/account` with
    /// only the timestamp parameter.
    pub fn account_info_request(&self, timestamp: u64) -> (r: RestRequest)
        ensures
            r.method == HttpMethod::Get,
            r.path@ == "/api/v3/account"@,
            r.query@ == spec_signed_query(
                self.secret_key@,
                seq![("timestamp"@, dec_str(timestamp as nat))],
            ),
    {
        let mut params: Vec<(String, String)> = Vec::new();
        params.push(("timestamp".to_owned(), u64_to_string(timestamp)));
        proof {
            assert(spec_params_view(params@) =~= seq![("timestamp"@, dec_str(timestamp as nat))]);
        }
        let query = self.signed_query(&params);
        RestRequest { method: HttpMethod::Get, path: "/api/v3/account".to_owned(), query }
    }

    /// The signed market-order call: POST `/api/v3/order` with type
    /// `MARKET`. `quantity` is the pre-formatted decimal wire token.
    pub fn market_order_request(
        &self,
        symbol: &str,
        side: super::types::OrderSide,
        quantity: &str,
        timestamp: u64,
    ) -> (r: RestRequest)
        ensures
            r.method == HttpMethod::Post,
            r.path@ == "/api/v3/order"@,
            r.query@ == spec_signed_query(
                self.secret_key@,
                seq![
                    ("symbol"@, symbol@),
                    ("side"@, super::types::spec_side_wire(side)),
                    ("type"@, "MARKET"@),
                    ("quantity"@, quantity@),
                    ("timestamp"@, dec_str(timestamp as nat)),
                ],
            ),
    {
        let mut params: Vec<(String, String)> = Vec::new();
        params.push(("symbol".to_owned(), symbol.to_owned()));
        params.push(("side".to_owned(), side.wire_str().to_owned()));
        params.push(("type".to_owned(), super::types::OrderType::Market.wire_str().to_owned()));
        params.push(("quantity".to_owned(), quantity.to_owned()));
        params.push(("timestamp".to_owned(), u64_to_string(timestamp)));
        proof {
            assert(spec_params_view(params@) =~= seq![
                ("symbol"@, symbol@),
                ("side"@, super::types::spec_side_wire(side)),
                ("type"@, "MARKET"@),
                ("quantity"@, quantity@),
                ("timestamp"@, dec_str(timestamp as nat)),
            ]);
        }
        let query = self.signed_query(&params);
        RestRequest { method: HttpMethod::Post, path: "/api/v3/order".to_owned(), query }
    }

    /// The signed limit-order call: POST `/api/v3/order` with type
    /// `LIMIT`, good-till-canceled. `quantity` and `price` are the
    /// pre-formatted decimal wire tokens.
    pub fn limit_order_request(
        &self,
        symbol: &str,
        side: super::types::OrderSide,
        quantity: &str,
        price: &str,
        timestamp: u64,
    ) -> (r: RestRequest)
        ensures
            r.method == HttpMethod::Post,
            r.path@ == "/api/v3/order"@,
            r.query@ == spec_signed_query(
                self.secret_key@,
                seq![
                    ("symbol"@, symbol@),
                    ("side"@, super::types::spec_side_wire(side)),
                    ("type"@, "LIMIT"@),
                    ("timeInForce"@, "GTC"@),
                    ("quantity"@, quantity@),
                    ("price"@, price@),
                    ("timestamp"@, dec_str(timestamp as nat)),
                ],
            ),
    {
        let mut params: Vec<(String, String)> = Vec::new();
        params.push(("symbol".to_owned(), symbol.to_owned()));
        params.push(("side".to_owned(), side.wire_str().to_owned()));
        params.push(("type".to_owned(), super::types::OrderType::Limit.wire_str().to_owned()));
        params.push((
            "timeInForce".to_owned(),
            super::types::TimeInForce::GoodTillCanceled.wire_str().to_owned(),
        ));
        params.push(("quantity".to_owned(), quantity.to_owned()));
        params.push(("price".to_owned(), price.to_owned()));
        params.push(("timestamp".to_owned(), u64_to_string(timestamp)));
        proof {
            assert(spec_params_view(params@) =~= seq![
                ("symbol"@, symbol@),
                ("side"@, super::types::spec_side_wire(side)),
                ("type"@, "LIMIT"@),
                ("timeInForce"@, "GTC"@),
                ("quantity"@, quantity@),
                ("price"@, price@),
                ("timestamp"@, dec_str(timestamp as nat)),
            ]);
        }
        let query = self.signed_query(&params);
        RestRequest { method: HttpMethod::Post, path: "/api/v3/order".to_owned(), query }
    }

    /// The signed open-orders listing: GET `/api/v3/openOrders`; an absent
    /// symbol means "all symbols".
    pub fn open_orders_request(&self, symbol: Option<&str>, timestamp: u64) -> (r: RestRequest)
        ensures
            r.method == HttpMethod::Get,
            r.path@ == "/api/v3/openOrders"@,
            match symbol {
                Some(s) => r.query@ == spec_signed_query(
                    self.secret_key@,
                    seq![("symbol"@, s@), ("timestamp"@, dec_str(timestamp as nat))],
                ),
                None => r.query@ == spec_signed_query(
                    self.secret_key@,
                    seq![("timestamp"@, dec_str(timestamp as nat))],
                ),
            },
    {
        let mut params: Vec<(String, String)> = Vec::new();
        match symbol {
            Some(s) => {
                params.push(("symbol".to_owned(), s.to_owned()));
                params.push(("timestamp".to_owned(), u64_to_string(timestamp)));
                proof {
                    assert(spec_params_view(params@) =~= seq![
                        ("symbol"@, s@),
                        ("timestamp"@, dec_str(timestamp as nat)),
                    ]);
                }
            },
            None => {
                params.push(("timestamp".to_owned(), u64_to_string(timestamp)));
                proof {
                    assert(spec_params_view(params@) =~= seq![
                        ("timestamp"@, dec_str(timestamp as nat)),
                    ]);
                }
            },
        }
        let query = self.signed_query(&params);
        RestRequest { method: HttpMethod::Get, path: "/api/v3/openOrders".to_owned(), query }
    }

    /// The signed cancellation call: DELETE `/api/v3/order` for one order
    /// id on one symbol.
    pub fn cancel_order_request(&self, symbol: &str, order_id: u64, timestamp: u64) -> (r:
        RestRequest)
        ensures
            r.method == HttpMethod::Delete,
            r.path@ == "/api/v3/order"@,
            r.query@ == spec_signed_query(
                self.secret_key@,
                seq![
                    ("symbol"@, symbol@),
                    ("orderId"@, dec_str(order_id as nat)),
                    ("timestamp"@, dec_str(timestamp as nat)),
                ],
            ),
    {
        let mut params: Vec<(String, String)> = Vec::new();
        params.push(("symbol".to_owned(), symbol.to_owned()));
        params.push(("orderId".to_owned(), u64_to_string(order_id)));
        params.push(("timestamp".to_owned(), u64_to_string(timestamp)));
        proof {
            assert(spec_params_view(params@) =~= seq![
                ("symbol"@, symbol@),
                ("orderId"@, dec_str(order_id as nat)),
                ("timestamp"@, dec_str(timestamp as nat)),
            ]);
        }
        let query = self.signed_query(&params);
        RestRequest { method: HttpMethod::Delete, path: "/api/v3/order".to_owned(), query }
    }

    /// The public, unsigned price lookup URL for one symbol.
    pub fn ticker_price_url(&self, symbol: &str) -> (r: String)
        ensures
            r@ == self.base_url@ + "/api/v3/ticker/price?symbol="@ + symbol@,
    {
        let mut url = self.base_url.clone();
        url.append("/api/v3/ticker/price?symbol=");
        url.append(symbol);
        url
    }
}

/// Whether an extracted price field is acceptable: present and a valid
/// decimal token.
pub open spec fn spec_price_field_ok(field: Option<String>) -> bool {
    match field {
        Some(p) => spec_is_decimal(p@),
        None => false,
    }
}

/// The decision on an extracted price field: hand the token through
/// exactly when it is present and a valid decimal; otherwise a decode
/// failure preserving the raw response text.
pub fn price_of_field(field: Option<String>, text: &str) -> (r: Result<String, TradeError>)
    ensures
        match r {
            Ok(p) => spec_price_field_ok(field) && (field matches Some(q) && p@ == q@),
            Err(e) => !spec_price_field_ok(field) && (e matches TradeError::Parse(m) && m@
                == text@),
        },
{
    match field {
        Some(p) => {
            if is_decimal_str(p.as_str()) {
                Ok(p)
            } else {
                Err(TradeError::Parse(text.to_owned()))
            }
        },
        None => Err(TradeError::Parse(text.to_owned())),
    }
}

/// Decode the public price lookup's response body: the `price` member,
/// validated against the decimal-token grammar. Any body that does not
/// carry one is a decode failure preserving the raw text.
pub fn parse_price(text: &str) -> (r: Result<String, TradeError>)
    ensures
        match r {
            Ok(p) => spec_is_decimal(p@),
            Err(e) => e matches TradeError::Parse(m) && m@ == text@,
        },
{
    let v = match json_parse(text) {
        Some(v) => v,
        None => {
            return Err(TradeError::Parse(text.to_owned()));
        },
    };
    let price = match json_get(&v, "price") {
        Some(x) => json_as_string(x),
        None => None,
    };
    price_of_field(price, text)
}

/// Whether a balance's extracted fields are complete and well-formed.
pub open spec fn spec_balance_fields_ok(
    asset: Option<String>,
    free: Option<String>,
    locked: Option<String>,
) -> bool {
    &&& asset is Some
    &&& match free {
        Some(f) => spec_is_decimal(f@),
        None => false,
    }
    &&& match locked {
        Some(l) => spec_is_decimal(l@),
        None => false,
    }
}

/// The decision on one balance's extracted fields: a balance exactly when
/// all three are present and the quantity tokens are valid decimals.
pub fn balance_of_fields(
    asset: Option<String>,
    free: Option<String>,
    locked: Option<String>,
) -> (r: Option<Balance>)
    ensures
        match r {
            Some(b) => spec_balance_fields_ok(asset, free, locked) && (asset matches Some(a)
                && b.asset@ == a@) && (free matches Some(f) && b.free@ == f@) && (
            locked matches Some(l)
                && b.locked@ == l@),
            None => !spec_balance_fields_ok(asset, free, locked),
        },
{
    match (asset, free, locked) {
        (Some(asset), Some(free), Some(locked)) => {
            if is_decimal_str(free.as_str()) && is_decimal_str(locked.as_str()) {
                Some(Balance { asset, free, locked })
            } else {
                None
            }
        },
        _ => None,
    }
}

/// Decode one balance object: `asset`, and decimal-validated `free` and
/// `locked` quantity tokens. `None` when a field is absent or malformed.
pub fn parse_balance(v: &serde_json::Value) -> (r: Option<Balance>)
    ensures
        match r {
            Some(b) => spec_is_decimal(b.free@) && spec_is_decimal(b.locked@),
            None => true,
        },
{
    let asset = match json_get(v, "asset") {
        Some(x) => json_as_string(x),
        None => None,
    };
    let free = match json_get(v, "free") {
        Some(x) => json_as_string(x),
        None => None,
    };
    let locked = match json_get(v, "locked") {
        Some(x) => json_as_string(x),
        None => None,
    };
    balance_of_fields(asset, free, locked)
}

/// Decode an account-information response body: the balances list and the
/// three capability flags, all required. Any shape mismatch is a decode
/// failure preserving the raw text; every decoded balance carries
/// validated decimal tokens.
pub fn parse_account_info(text: &str) -> (r: Result<AccountInfo, TradeError>)
    ensures
        match r {
            Ok(a) => forall|i: int|
                0 <= i < a.balances@.len() ==> spec_is_decimal(#[trigger] a.balances@[i].free@)
                    && spec_is_decimal(a.balances@[i].locked@),
            Err(e) => e matches TradeError::Parse(m) && m@ == text@,
        },
{
    let v = match json_parse(text) {
        Some(v) => v,
        None => {
            return Err(TradeError::Parse(text.to_owned()));
        },
    };
    let arr = match json_get(&v, "balances") {
        Some(x) => json_as_array(x),
        None => None,
    };
    let arr = match arr {
        Some(a) => a,
        None => {
            return Err(TradeError::Parse(text.to_owned()));
        },
    };
    let mut balances: Vec<Balance> = Vec::new();
    let mut i: usize = 0;
    while i < arr.len()
        invariant
            forall|j: int|
                0 <= j < balances@.len() ==> spec_is_decimal(#[trigger] balances@[j].free@)
                    && spec_is_decimal(balances@[j].locked@),
        decreases arr@.len() - i,
    {
        match parse_balance(&arr[i]) {
            Some(b) => balances.push(b),
            None => {
                return Err(TradeError::Parse(text.to_owned()));
            },
        }
        i = i + 1;
    }
    let can_trade = match json_get(&v, "canTrade") {
        Some(x) => json_as_bool(x),
        None => None,
    };
    let can_withdraw = match json_get(&v, "canWithdraw") {
        Some(x) => json_as_bool(x),
        None => None,
    };
    let can_deposit = match json_get(&v, "canDeposit") {
        Some(x) => json_as_bool(x),
        None => None,
    };
    match (can_trade, can_withdraw, can_deposit) {
        (Some(can_trade), Some(can_withdraw), Some(can_deposit)) => Ok(
            AccountInfo { balances, can_trade, can_withdraw, can_deposit },
        ),
        _ => Err(TradeError::Parse(text.to_owned())),
    }
}

/// The fields of one order object as they came off the wire; each may be
/// absent, and the status is still its raw literal.
#[derive(Debug, Clone)]
pub struct OrderFields {
    pub symbol: Option<String>,
    pub order_id: Option<u64>,
    pub order_list_id: Option<i64>,
    pub client_order_id: Option<String>,
    pub transact_time: Option<u64>,
    pub price: Option<String>,
    pub orig_qty: Option<String>,
    pub executed_qty: Option<String>,
    pub cummulative_quote_qty: Option<String>,
    pub status: Option<String>,
    pub time_in_force: Option<String>,
    pub order_type: Option<String>,
    pub side: Option<String>,
    pub time: Option<u64>,
}

/// Whether extracted order fields are complete: every identifying,
/// quantity and classification field present, the status one of the six
/// wire literals. The two time fields stay individually optional.
pub open spec fn spec_order_fields_ok(f: OrderFields) -> bool {
    &&& f.symbol is Some
    &&& f.order_id is Some
    &&& f.order_list_id is Some
    &&& f.client_order_id is Some
    &&& f.price is Some
    &&& f.orig_qty is Some
    &&& f.executed_qty is Some
    &&& f.cummulative_quote_qty is Some
    &&& match f.status {
        Some(s) => spec_status_of_wire(s@) is Some,
        None => false,
    }
    &&& f.time_in_force is Some
    &&& f.order_type is Some
    &&& f.side is Some
}

/// The decision on one order's extracted fields: an order exactly when
/// the fields are complete, copied field for field, with the status
/// decoded from its literal.
pub fn order_of_fields(f: OrderFields) -> (r: Option<OrderResponse>)
    ensures
        match r {
            Some(o) => spec_order_fields_ok(f) && (f.symbol matches Some(sym) && o.symbol@
                == sym@) && (f.order_id matches Some(oid) && o.order_id == oid) && (
            f.order_list_id matches Some(olid)
                && o.order_list_id == olid) && (f.client_order_id matches Some(coid)
                && o.client_order_id@ == coid@) && o.transact_time == f.transact_time && (
            f.price matches Some(pr)
                && o.price@ == pr@) && (f.orig_qty matches Some(oq) && o.orig_qty@ == oq@) && (
            f.executed_qty matches Some(exq)
                && o.executed_qty@ == exq@) && (f.cummulative_quote_qty matches Some(cqq)
                && o.cummulative_quote_qty@ == cqq@) && (f.status matches Some(stx) && Some(
                o.status,
            ) == spec_status_of_wire(stx@)) && (f.time_in_force matches Some(tif)
                && o.time_in_force@ == tif@) && (f.order_type matches Some(oty) && o.order_type@
                == oty@) && (f.side matches Some(sd) && o.side@ == sd@) && o.time == f.time,
            None => !spec_order_fields_ok(f),
        },
{
    let OrderFields {
        symbol,
        order_id,
        order_list_id,
        client_order_id,
        transact_time,
        price,
        orig_qty,
        executed_qty,
        cummulative_quote_qty,
        status,
        time_in_force,
        order_type,
        side,
        time,
    } = f;
    let status = match status {
        Some(s) => OrderStatus::from_wire_str(s.as_str()),
        None => None,
    };
    match (symbol, order_id, order_list_id, client_order_id) {
        (Some(symbol), Some(order_id), Some(order_list_id), Some(client_order_id)) => {
            match (price, orig_qty, executed_qty, cummulative_quote_qty) {
                (Some(price), Some(orig_qty), Some(executed_qty), Some(cummulative_quote_qty)) => {
                    match (status, time_in_force, order_type, side) {
                        (Some(status), Some(time_in_force), Some(order_type), Some(side)) => Some(
                            OrderResponse {
                                symbol,
                                order_id,
                                order_list_id,
                                client_order_id,
                                transact_time,
                                price,
                                orig_qty,
                                executed_qty,
                                cummulative_quote_qty,
                                status,
                                time_in_force,
                                order_type,
                                side,
                                time,
                            },
                        ),
                        _ => None,
                    }
                },
                _ => None,
            }
        },
        _ => None,
    }
}

/// Extract one order object's fields through the trusted accessors, then
/// decide by `order_of_fields`. The exchange sets `transactTime` on
/// freshly placed or cancelled orders and `time` on listed ones, so both
/// stay optional.
pub fn parse_order_value(v: &serde_json::Value) -> (r: Option<OrderResponse>) {
    let symbol = match json_get(v, "symbol") {
        Some(x) => json_as_string(x),
        None => None,
    };
    let order_id = match json_get(v, "orderId") {
        Some(x) => json_as_u64(x),
        None => None,
    };
    let order_list_id = match json_get(v, "orderListId") {
        Some(x) => json_as_i64(x),
        None => None,
    };
    let client_order_id = match json_get(v, "clientOrderId") {
        Some(x) => json_as_string(x),
        None => None,
    };
    let price = match json_get(v, "price") {
        Some(x) => json_as_string(x),
        None => None,
    };
    let orig_qty = match json_get(v, "origQty") {
        Some(x) => json_as_string(x),
        None => None,
    };
    let executed_qty = match json_get(v, "executedQty") {
        Some(x) => json_as_string(x),
        None => None,
    };
    let cummulative_quote_qty = match json_get(v, "cummulativeQuoteQty") {
        Some(x) => json_as_string(x),
        None => None,
    };
    let status = match json_get(v, "status") {
        Some(x) => json_as_string(x),
        None => None,
    };
    let time_in_force = match json_get(v, "timeInForce") {
        Some(x) => json_as_string(x),
        None => None,
    };
    let order_type = match json_get(v, "type") {
        Some(x) => json_as_string(x),
        None => None,
    };
    let side = match json_get(v, "side") {
        Some(x) => json_as_string(x),
        None => None,
    };
    let transact_time = match json_get(v, "transactTime") {
        Some(x) => json_as_u64(x),
        None => None,
    };
    let time = match json_get(v, "time") {
        Some(x) => json_as_u64(x),
        None => None,
    };
    order_of_fields(
        OrderFields {
            symbol,
            order_id,
            order_list_id,
            client_order_id,
            transact_time,
            price,
            orig_qty,
            executed_qty,
            cummulative_quote_qty,
            status,
            time_in_force,
            order_type,
            side,
            time,
        },
    )
}

/// Decode a single-order response body; a shape mismatch is a decode
/// failure preserving the raw text.
pub fn parse_order_response(text: &str) -> (r: Result<OrderResponse, TradeError>)
    ensures
        r is Err ==> (r matches Err(e) && e matches TradeError::Parse(m) && m@ == text@),
{
    let v = match json_parse(text) {
        Some(v) => v,
        None => {
            return Err(TradeError::Parse(text.to_owned()));
        },
    };
    match parse_order_value(&v) {
        Some(o) => Ok(o),
        None => Err(TradeError::Parse(text.to_owned())),
    }
}

/// Decode a multi-order response body (a JSON array of orders); a shape
/// mismatch anywhere is a decode failure preserving the raw text.
pub fn parse_open_orders(text: &str) -> (r: Result<Vec<OrderResponse>, TradeError>)
    ensures
        r is Err ==> (r matches Err(e) && e matches TradeError::Parse(m) && m@ == text@),
{
    let v = match json_parse(text) {
        Some(v) => v,
        None => {
            return Err(TradeError::Parse(text.to_owned()));
        },
    };
    let arr = match json_as_array(&v) {
        Some(a) => a,
        None => {
            return Err(TradeError::Parse(text.to_owned()));
        },
    };
    let mut orders: Vec<OrderResponse> = Vec::new();
    let mut i: usize = 0;
    while i < arr.len()
        decreases arr@.len() - i,
    {
        match parse_order_value(&arr[i]) {
            Some(o) => orders.push(o),
            None => {
                return Err(TradeError::Parse(text.to_owned()));
            },
        }
        i = i + 1;
    }
    Ok(orders)
}

} // verus!
