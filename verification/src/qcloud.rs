//! The object-storage signature scheme: HMAC-SHA1 request signing for the
//! cloud storage API and the federation-token policy document. The digests
//! stand behind named trusted wrappers; every string the scheme assembles —
//! sorted parameter lists, the sign content, the policy resource — is
//! verified character for character.

use vstd::prelude::*;
use vstd::multiset::Multiset;
use vstd::string::*;

use crate::strutil::{lemma_str_le_total, spec_str_le, str_le};

verus! {

/// The long-lived API credential pair.
pub struct Secrets<'a> {
    pub secret_id: &'a str,
    pub secret_key: &'a str,
}

impl<'a> Secrets<'a> {
    pub fn new(secret_id: &'a str, secret_key: &'a str) -> (r: Secrets<'a>)
        ensures
            r.secret_id == secret_id,
            r.secret_key == secret_key,
    {
        Secrets { secret_id, secret_key }
    }
}

/// One scope of a federation-token policy: an action over a bucket prefix.
pub struct PolicyScope<'a> {
    pub action: &'a str,
    pub bucket: &'a str,
    pub region: &'a str,
    pub prefix: &'a str,
}

impl<'a> vstd::std_specs::convert::FromSpecImpl<(&'a str, &'a str, &'a str, &'a str)> for PolicyScope<'a> {
    open spec fn obeys_from_spec() -> bool {
        true
    }

    open spec fn from_spec(tuple: (&'a str, &'a str, &'a str, &'a str)) -> PolicyScope<'a> {
        PolicyScope { action: tuple.0, bucket: tuple.1, region: tuple.2, prefix: tuple.3 }
    }
}

impl<'a> From<(&'a str, &'a str, &'a str, &'a str)> for PolicyScope<'a> {
    fn from(tuple: (&'a str, &'a str, &'a str, &'a str)) -> (r: PolicyScope<'a>) {
        PolicyScope { action: tuple.0, bucket: tuple.1, region: tuple.2, prefix: tuple.3 }
    }
}

pub struct PolicyPrincipal<'a> {
    pub qcs: &'a str,
}

pub struct PolicyStatement<'a> {
    pub action: &'a str,
    pub effect: &'a str,
    pub principal: PolicyPrincipal<'a>,
    pub resource: String,
}

pub struct PolicyDescription<'a> {
    pub version: &'a str,
    pub statement: Vec<PolicyStatement<'a>>,
}

/// The temporary credential triple a granted federation token carries.
pub struct StsCredentialResponse {
    pub tmp_secret_id: String,
    pub tmp_secret_key: String,
    pub token: String,
}

pub struct StsSuccessResponse {
    pub credentials: StsCredentialResponse,
    pub expiration: String,
    pub expired_time: u64,
    pub request_id: String,
}

pub struct StsErrorResponseInner {
    pub code: String,
    pub message: String,
}

pub struct StsErrorResponse {
    pub error: StsErrorResponseInner,
    pub request_id: String,
}

pub enum StsResponse {
    Success(StsSuccessResponse),
    Error(StsErrorResponse),
}

pub struct StsResponseWrapper {
    pub response: StsResponse,
}

// ---------------------------------------------------------------------------
// Digests and encodings.
// ---------------------------------------------------------------------------

/// The HMAC-SHA1 of a message under a key: a function of the two alone.
pub uninterp spec fn hmac_sha1_of(key: Seq<u8>, message: Seq<u8>) -> Seq<u8>;

/// The SHA1 digest of a byte sequence: a function of it alone.
pub uninterp spec fn sha1_of(b: Seq<u8>) -> Seq<u8>;

/// What standard (padded) base64 encoding yields.
pub uninterp spec fn b64_of(b: Seq<u8>) -> Seq<char>;

/// What `str::to_lowercase` yields: a function of the characters alone.
pub uninterp spec fn lower_of(s: Seq<char>) -> Seq<char>;

/// Relies on hmac-sha1's `hmac_sha1`: a twenty-byte HMAC-SHA1 digest.
#[verifier::external_body]
fn hmac_sha1_digest(key: &[u8], message: &[u8]) -> (r: Vec<u8>)
    ensures
        r@ == hmac_sha1_of(key@, message@),
        r@.len() == 20,
{
    hmac_sha1::hmac_sha1(key, message).to_vec()
}

/// Relies on openssl's `sha::sha1`: a twenty-byte SHA1 digest.
#[verifier::external_body]
fn sha1_digest(b: &[u8]) -> (r: Vec<u8>)
    ensures
        r@ == sha1_of(b@),
        r@.len() == 20,
{
    openssl::sha::sha1(b).to_vec()
}

/// Relies on base64's standard-alphabet, padded `encode`.
#[verifier::external_body]
fn base64_standard_encode(b: &[u8]) -> (r: String)
    ensures
        r@ == b64_of(b@),
{
    base64::Engine::encode(&base64::engine::general_purpose::STANDARD, b)
}

pub open spec fn spec_hex_digit(d: nat) -> char {
    if d == 0 {
        '0'
    } else if d == 1 {
        '1'
    } else if d == 2 {
        '2'
    } else if d == 3 {
        '3'
    } else if d == 4 {
        '4'
    } else if d == 5 {
        '5'
    } else if d == 6 {
        '6'
    } else if d == 7 {
        '7'
    } else if d == 8 {
        '8'
    } else if d == 9 {
        '9'
    } else if d == 10 {
        'a'
    } else if d == 11 {
        'b'
    } else if d == 12 {
        'c'
    } else if d == 13 {
        'd'
    } else if d == 14 {
        'e'
    } else {
        'f'
    }
}

/// Lowercase hex encoding: two digits per byte, most significant first.
pub open spec fn spec_hex_encode(b: Seq<u8>) -> Seq<char>
    decreases b.len(),
{
    if b.len() == 0 {
        Seq::<char>::empty()
    } else {
        spec_hex_encode(b.drop_last()) + seq![
            spec_hex_digit((b.last() / 16) as nat),
            spec_hex_digit((b.last() % 16) as nat),
        ]
    }
}

/// Relies on hex's `encode`: lowercase hex, two digits per byte, exactly as
/// `spec_hex_encode` states.
#[verifier::external_body]
fn hex_encode(b: &[u8]) -> (r: String)
    ensures
        r@ == spec_hex_encode(b@),
{
    hex::encode(b)
}

/// Relies on str's `to_lowercase`: the result depends on the characters
/// alone, and an empty string stays empty.
#[verifier::external_body]
fn str_to_lowercase(s: &str) -> (r: String)
    ensures
        r@ == lower_of(s@),
        s@.len() == 0 ==> r@.len() == 0,
{
    s.to_lowercase()
}

// ---------------------------------------------------------------------------
// The signature strings.
// ---------------------------------------------------------------------------

/// Which encoding a signature is rendered in.
pub enum SignAlgorithm {
    Base64,
    Hex,
}

/// The rendered HMAC-SHA1 of `content` under `secret_key`.
pub open spec fn spec_sign_content(
    secret_key: Seq<char>,
    content: Seq<char>,
    alg: SignAlgorithm,
) -> Seq<char> {
    let digest = hmac_sha1_of(
        vstd::utf8::encode_utf8(secret_key),
        vstd::utf8::encode_utf8(content),
    );
    match alg {
        SignAlgorithm::Base64 => b64_of(digest),
        SignAlgorithm::Hex => spec_hex_encode(digest),
    }
}

/// Signs `content` with HMAC-SHA1 under `secret_key` and renders the digest
/// in the chosen encoding.
pub fn generate_sign_content(secret_key: &str, content: &str, alg: SignAlgorithm) -> (r: String)
    ensures
        r@ == spec_sign_content(secret_key@, content@, alg),
{
    let bin = hmac_sha1_digest(secret_key.as_bytes(), content.as_bytes());
    match alg {
        SignAlgorithm::Base64 => base64_standard_encode(bin.as_slice()),
        SignAlgorithm::Hex => hex_encode(bin.as_slice()),
    }
}

/// The validity window string `start;end` of a signature.
pub open spec fn spec_key_time(now: i64, max_age: i64) -> Seq<char> {
    crate::numfmt::spec_i64_decimal(now as int) + ";"@ + crate::numfmt::spec_i64_decimal(
        now + max_age,
    )
}

/// Renders the validity window of a signature starting now.
pub fn generate_key_time(now: i64, max_age: i64) -> (r: String)
    requires
        0 <= max_age,
        now <= i64::MAX - max_age,
    ensures
        r@ == spec_key_time(now, max_age),
{
    let end: i64 = now + max_age;
    let mut s = crate::numfmt::i64_to_string(now);
    s.append(";");
    s.append(crate::numfmt::i64_to_string(end).as_str());
    s
}

/// The canonical request string: method, path, parameters and headers, each
/// followed by a newline.
pub open spec fn spec_http_string(
    method: Seq<char>,
    path: Seq<char>,
    http_params: Seq<char>,
    http_headers: Seq<char>,
) -> Seq<char> {
    method + "\n"@ + path + "\n"@ + http_params + "\n"@ + http_headers + "\n"@
}

/// Assembles the canonical request string.
pub fn generate_http_string(
    method: &str,
    path: &str,
    http_params: &str,
    http_headers: &str,
) -> (r: String)
    ensures
        r@ == spec_http_string(method@, path@, http_params@, http_headers@),
{
    let mut s = method.to_owned();
    s.append("\n");
    s.append(path);
    s.append("\n");
    s.append(http_params);
    s.append("\n");
    s.append(http_headers);
    s.append("\n");
    s
}

/// The string-to-sign: the algorithm tag, the validity window, and the hex
/// SHA1 of the canonical request string, newline-separated.
pub open spec fn spec_string_to_sign(key_time: Seq<char>, http_string: Seq<char>) -> Seq<char> {
    "sha1\n"@ + key_time + "\n"@ + spec_hex_encode(sha1_of(vstd::utf8::encode_utf8(http_string)))
        + "\n"@
}

/// Assembles the string-to-sign for a canonical request string.
pub fn generate_string_to_sign(key_time: &str, http_string: &str) -> (r: String)
    ensures
        r@ == spec_string_to_sign(key_time@, http_string@),
{
    let sha1_str = sha1_digest(http_string.as_bytes());
    let hex_str = hex_encode(sha1_str.as_slice());
    let mut s = String::from_str("sha1\n");
    s.append(key_time);
    s.append("\n");
    s.append(hex_str.as_str());
    s.append("\n");
    s
}

/// The rendered authorization value carrying the credential, the two time
/// windows, the signed lists and the signature.
pub open spec fn spec_sign(
    secret_id: Seq<char>,
    key_time: Seq<char>,
    header_list: Seq<char>,
    url_param_list: Seq<char>,
    signature: Seq<char>,
) -> Seq<char> {
    "q-sign-algorithm=sha1&q-ak="@ + secret_id + "&q-sign-time="@ + key_time + "&q-key-time="@
        + key_time + "&q-header-list="@ + header_list + "&q-url-param-list="@ + url_param_list
        + "&q-signature="@ + signature
}

/// Assembles the authorization value.
pub fn generate_sign(
    secret_id: &str,
    key_time: &str,
    header_list: &str,
    url_param_list: &str,
    signature: &str,
) -> (r: String)
    ensures
        r@ == spec_sign(secret_id@, key_time@, header_list@, url_param_list@, signature@),
{
    let mut s = String::from_str("q-sign-algorithm=sha1&q-ak=");
    s.append(secret_id);
    s.append("&q-sign-time=");
    s.append(key_time);
    s.append("&q-key-time=");
    s.append(key_time);
    s.append("&q-header-list=");
    s.append(header_list);
    s.append("&q-url-param-list=");
    s.append(url_param_list);
    s.append("&q-signature=");
    s.append(signature);
    s
}

// ---------------------------------------------------------------------------
// Sorted parameter lists.
// ---------------------------------------------------------------------------

/// Whether the pairs are ordered by key.
pub open spec fn spec_sorted_by_key(s: Seq<(String, String)>) -> bool {
    forall|i: int| 0 <= i < s.len() - 1 ==> spec_str_le(#[trigger] s[i].0@, s[i + 1].0@)
}

fn insert_pair_sorted(out: &mut Vec<(String, String)>, x: (String, String))
    requires
        spec_sorted_by_key(old(out)@),
    ensures
        spec_sorted_by_key(final(out)@),
        final(out)@.to_multiset() =~= old(out)@.to_multiset().insert(x),
        final(out)@.len() == old(out)@.len() + 1,
    decreases old(out)@.len(),
{
    broadcast use vstd::seq_lib::group_to_multiset_ensures;
    broadcast use vstd::multiset::group_multiset_axioms;

    let n = out.len();
    let mut j: usize = 0;
    loop
        invariant
            n == out@.len(),
            0 <= j <= n,
            forall|k: int| 0 <= k < j ==> spec_str_le(#[trigger] out@[k].0@, x.0@),
        ensures
            0 <= j <= n,
            forall|k: int| 0 <= k < j ==> spec_str_le(#[trigger] out@[k].0@, x.0@),
            j == n || spec_str_le(x.0@, out@[j as int].0@),
        decreases n - j,
    {
        if j == n {
            break ;
        }
        if !str_le(out[j].0.as_str(), x.0.as_str()) {
            proof {
                lemma_str_le_total(out@[j as int].0@, x.0@);
            }
            break ;
        }
        j = j + 1;
    }
    let ghost prev = out@;
    let ghost xg = x;
    out.insert(j, x);
    proof {
        assert forall|a: int| 0 <= a < out@.len() - 1 implies spec_str_le(
            #[trigger] out@[a].0@,
            out@[a + 1].0@,
        ) by {
            if a < j - 1 {
                assert(out@[a] == prev[a] && out@[a + 1] == prev[a + 1]);
            } else if a == j - 1 {
                assert(out@[a] == prev[a] && out@[a + 1] == xg);
            } else if a == j {
                if j < prev.len() {
                    assert(out@[a] == xg && out@[a + 1] == prev[j as int]);
                    lemma_str_le_total(prev[j as int].0@, xg.0@);
                }
            } else {
                assert(out@[a] == prev[a - 1] && out@[a + 1] == prev[a]);
            }
        }
        assert(out@.remove(j as int) =~= prev);
        assert(out@.remove(j as int).to_multiset() =~= out@.to_multiset().remove(out@[j as int]));
        assert(out@[j as int] == xg);
        assert(out@.to_multiset().contains(xg)) by {
            assert(out@[j as int] == xg);
        }
        assert(out@.to_multiset() =~= prev.to_multiset().insert(xg));
    }
}

/// Sorts key/value pairs by key: the result is ordered and holds exactly
/// the given pairs.
pub fn sort_pairs_by_key(v: Vec<(String, String)>) -> (r: Vec<(String, String)>)
    ensures
        spec_sorted_by_key(r@),
        r@.to_multiset() =~= v@.to_multiset(),
        r@.len() == v@.len(),
{
    broadcast use vstd::seq_lib::group_to_multiset_ensures;
    broadcast use vstd::multiset::group_multiset_axioms;

    let mut rest = v;
    let mut out: Vec<(String, String)> = Vec::new();
    proof {
        assert(out@.to_multiset() =~= Multiset::<(String, String)>::empty());
    }
    loop
        invariant
            out@.to_multiset().add(rest@.to_multiset()) =~= v@.to_multiset(),
            out@.len() + rest@.len() == v@.len(),
            spec_sorted_by_key(out@),
        ensures
            rest@.len() == 0,
            out@.to_multiset() =~= v@.to_multiset(),
            out@.len() == v@.len(),
            spec_sorted_by_key(out@),
        decreases rest@.len(),
    {
        let ghost prev_rest = rest@;
        match rest.pop() {
            None => {
                proof {
                    broadcast use vstd::seq_lib::group_to_multiset_ensures;
                    broadcast use vstd::multiset::group_multiset_axioms;

                    assert(rest@.len() == 0);
                    assert forall|x: (String, String)|
                        rest@.to_multiset().count(x) == 0 by {
                        assert(!rest@.contains(x));
                    }
                    assert(rest@.to_multiset() =~= Multiset::<(String, String)>::empty());
                }
                break ;
            },
            Some(x) => {
                proof {
                    broadcast use vstd::seq_lib::group_to_multiset_ensures;
                    broadcast use vstd::multiset::group_multiset_axioms;

                    assert(prev_rest.drop_last().push(prev_rest.last()) =~= prev_rest);
                    assert(prev_rest.drop_last().push(prev_rest.last()).to_multiset()
                        =~= prev_rest.drop_last().to_multiset().insert(prev_rest.last()));
                    assert(prev_rest.to_multiset() =~= prev_rest.drop_last().to_multiset().insert(
                        prev_rest.last(),
                    ));
                }
                insert_pair_sorted(&mut out, x);
            },
        }
    }
    out
}

/// The `key=value` pairs joined with `&`, in the given order.
pub open spec fn spec_join_params(s: Seq<(String, String)>) -> Seq<char>
    decreases s.len(),
{
    if s.len() == 0 {
        Seq::<char>::empty()
    } else if s.len() == 1 {
        s[0].0@ + "="@ + s[0].1@
    } else {
        spec_join_params(s.drop_last()) + "&"@ + s.last().0@ + "="@ + s.last().1@
    }
}

/// Joins `key=value` pairs with `&`, in the given order.
pub fn join_params(v: &Vec<(String, String)>) -> (r: String)
    ensures
        r@ == spec_join_params(v@),
{
    let n = v.len();
    let mut s = String::new();
    let mut i: usize = 0;
    proof {
        assert(v@.take(0) =~= Seq::<(String, String)>::empty());
    }
    while i < n
        invariant
            n == v@.len(),
            0 <= i <= n,
            s@ == spec_join_params(v@.take(i as int)),
        decreases n - i,
    {
        if i > 0 {
            s.append("&");
        }
        s.append(v[i].0.as_str());
        s.append("=");
        s.append(v[i].1.as_str());
        proof {
            assert(v@.take(i as int + 1).drop_last() =~= v@.take(i as int));
            assert(v@.take(i as int + 1).last() == v@[i as int]);
            if i == 0 {
                assert(v@.take(1).len() == 1);
            }
        }
        i = i + 1;
    }
    proof {
        assert(v@.take(n as int) =~= v@);
    }
    s
}

/// The parameter string of a request: the pairs sorted by key and joined as
/// `key=value` with `&`.
pub fn object_to_str(params: Vec<(String, String)>) -> (r: String)
    ensures
        exists|s: Seq<(String, String)>|
            #![auto]
            s.to_multiset() == params@.to_multiset() && spec_sorted_by_key(s) && r@
                == spec_join_params(s),
{
    let sorted = sort_pairs_by_key(params);
    let r = join_params(&sorted);
    proof {
        assert(sorted@.to_multiset() == params@.to_multiset() && spec_sorted_by_key(sorted@) && r@
            == spec_join_params(sorted@));
    }
    r
}

/// The lowercased keys joined with `;`, in the given order.
pub open spec fn spec_join_keys_lower(s: Seq<(String, String)>) -> Seq<char>
    decreases s.len(),
{
    if s.len() == 0 {
        Seq::<char>::empty()
    } else if s.len() == 1 {
        lower_of(s[0].0@)
    } else {
        spec_join_keys_lower(s.drop_last()) + ";"@ + lower_of(s.last().0@)
    }
}

/// The `lowercased-key=value` pairs joined with `&`, in the given order.
pub open spec fn spec_join_params_lower(s: Seq<(String, String)>) -> Seq<char>
    decreases s.len(),
{
    if s.len() == 0 {
        Seq::<char>::empty()
    } else if s.len() == 1 {
        lower_of(s[0].0@) + "="@ + s[0].1@
    } else {
        spec_join_params_lower(s.drop_last()) + "&"@ + lower_of(s.last().0@) + "="@ + s.last().1@
    }
}

/// The two signed header lists of a request: the keys sorted, lowercased,
/// and joined with `;`, and the `key=value` pairs likewise joined with `&`.
pub fn generate_key_list_and_key_val_pair(header_map: Vec<(String, String)>) -> (r: (
    String,
    String,
))
    ensures
        exists|s: Seq<(String, String)>|
            #![auto]
            s.to_multiset() == header_map@.to_multiset() && spec_sorted_by_key(s) && r.0@
                == spec_join_keys_lower(s) && r.1@ == spec_join_params_lower(s),
{
    let sorted = sort_pairs_by_key(header_map);
    let n = sorted.len();
    let mut key_list = String::new();
    let mut key_val_pair = String::new();
    let mut i: usize = 0;
    proof {
        assert(sorted@.take(0) =~= Seq::<(String, String)>::empty());
    }
    while i < n
        invariant
            n == sorted@.len(),
            0 <= i <= n,
            key_list@ == spec_join_keys_lower(sorted@.take(i as int)),
            key_val_pair@ == spec_join_params_lower(sorted@.take(i as int)),
        decreases n - i,
    {
        let lower_key = str_to_lowercase(sorted[i].0.as_str());
        if i > 0 {
            key_list.append(";");
            key_val_pair.append("&");
        }
        key_list.append(lower_key.as_str());
        key_val_pair.append(lower_key.as_str());
        key_val_pair.append("=");
        key_val_pair.append(sorted[i].1.as_str());
        proof {
            assert(sorted@.take(i as int + 1).drop_last() =~= sorted@.take(i as int));
            assert(sorted@.take(i as int + 1).last() == sorted@[i as int]);
            if i == 0 {
                assert(sorted@.take(1).len() == 1);
            }
        }
        i = i + 1;
    }
    proof {
        assert(sorted@.take(n as int) =~= sorted@);
        assert(sorted@.to_multiset() == header_map@.to_multiset() && spec_sorted_by_key(sorted@)
            && key_list@ == spec_join_keys_lower(sorted@) && key_val_pair@
            == spec_join_params_lower(sorted@));
    }
    (key_list, key_val_pair)
}

// ---------------------------------------------------------------------------
// The federation-token policy.
// ---------------------------------------------------------------------------

/// The index of the last occurrence of `c`, or `-1`.
pub open spec fn spec_rfind(s: Seq<char>, c: char) -> int
    decreases s.len(),
{
    if s.len() == 0 {
        -1
    } else if s[s.len() - 1] == c {
        s.len() - 1
    } else {
        spec_rfind(s.drop_last(), c)
    }
}

/// Finds the last occurrence of a character.
pub fn rfind_char(s: &str, c: char) -> (r: Option<usize>)
    ensures
        match r {
            Some(i) => spec_rfind(s@, c) == i,
            None => spec_rfind(s@, c) == -1,
        },
{
    let n = s.unicode_len();
    let mut j: usize = n;
    proof {
        assert(s@.take(n as int) =~= s@);
    }
    while j > 0
        invariant
            n == s@.len(),
            0 <= j <= n,
            spec_rfind(s@, c) == spec_rfind(s@.take(j as int), c),
        decreases j,
    {
        let ch = s.get_char(j - 1);
        proof {
            assert(s@.take(j as int).last() == s@[j - 1]);
            assert(s@.take(j as int).drop_last() =~= s@.take(j as int - 1));
        }
        if ch == c {
            return Some(j - 1);
        }
        j = j - 1;
    }
    proof {
        assert(s@.take(0) =~= Seq::<char>::empty());
    }
    None
}

/// The resource line of one policy scope: `*` for the service-listing
/// action, otherwise the qcs path assembled from the bucket's short name
/// and numeric suffix (after the last dash), region and prefix.
pub open spec fn spec_policy_resource(
    action: Seq<char>,
    bucket: Seq<char>,
    region: Seq<char>,
    prefix: Seq<char>,
) -> Seq<char> {
    if action == "name/cos:GetService"@ {
        "*"@
    } else {
        let k = spec_rfind(bucket, '-');
        "qcs::cos:"@ + region + ":uid/"@ + bucket.skip(k + 1) + ":prefix//"@ + bucket.skip(k + 1)
            + "/"@ + bucket.take(k) + "/"@ + prefix
    }
}

/// Builds the federation-token policy for the scopes: version `2.0`, one
/// allow-statement per scope with principal `*` and the scope's resource.
/// Each bucket name must carry its numeric suffix after a dash.
pub fn get_policy<'a>(scope: Vec<PolicyScope<'a>>) -> (r: PolicyDescription<'a>)
    requires
        forall|i: int| 0 <= i < scope@.len() ==> spec_rfind(#[trigger] scope@[i].bucket@, '-') >= 0,
    ensures
        r.version@ == "2.0"@,
        r.statement@.len() == scope@.len(),
        forall|i: int|
            0 <= i < scope@.len() ==> {
                &&& (#[trigger] r.statement@[i]).action == scope@[i].action
                &&& r.statement@[i].effect@ == "allow"@
                &&& r.statement@[i].principal.qcs@ == "*"@
                &&& r.statement@[i].resource@ == spec_policy_resource(
                    scope@[i].action@,
                    scope@[i].bucket@,
                    scope@[i].region@,
                    scope@[i].prefix@,
                )
            },
{
    let n = scope.len();
    let mut statement: Vec<PolicyStatement<'a>> = Vec::new();
    let mut i: usize = 0;
    while i < n
        invariant
            n == scope@.len(),
            0 <= i <= n,
            statement@.len() == i,
            forall|k: int| 0 <= k < n ==> spec_rfind(#[trigger] scope@[k].bucket@, '-') >= 0,
            forall|k: int|
                0 <= k < i ==> {
                    &&& (#[trigger] statement@[k]).action == scope@[k].action
                    &&& statement@[k].effect@ == "allow"@
                    &&& statement@[k].principal.qcs@ == "*"@
                    &&& statement@[k].resource@ == spec_policy_resource(
                        scope@[k].action@,
                        scope@[k].bucket@,
                        scope@[k].region@,
                        scope@[k].prefix@,
                    )
                },
        decreases n - i,
    {
        let item = &scope[i];
        let resource: String = if item.action.eq("name/cos:GetService") {
            "*".to_owned()
        } else {
            let bucket_len = item.bucket.unicode_len();
            let k: usize = match rfind_char(item.bucket, '-') {
                Some(k) => k,
                None => {
                    proof {
                        assert(false);
                    }
                    0
                },
            };
            proof {
                lemma_rfind_in_range(item.bucket@, '-');
            }
            let short_bucket_name = item.bucket.substring_char(0, k);
            let app_id = item.bucket.substring_char(k + 1, bucket_len);
            let mut s = String::from_str("qcs::cos:");
            s.append(item.region);
            s.append(":uid/");
            s.append(app_id);
            s.append(":prefix//");
            s.append(app_id);
            s.append("/");
            s.append(short_bucket_name);
            s.append("/");
            s.append(item.prefix);
            proof {
                assert(item.bucket@.subrange(k + 1, bucket_len as int) =~= item.bucket@.skip(
                    k as int + 1,
                ));
                assert(item.bucket@.subrange(0, k as int) =~= item.bucket@.take(k as int));
            }
            s
        };
        statement.push(
            PolicyStatement {
                action: item.action,
                effect: "allow",
                principal: PolicyPrincipal { qcs: "*" },
                resource,
            },
        );
        i = i + 1;
    }
    PolicyDescription { version: "2.0", statement }
}

/// A found last occurrence lies inside the sequence.
pub proof fn lemma_rfind_in_range(s: Seq<char>, c: char)
    ensures
        -1 <= spec_rfind(s, c) < s.len(),
    decreases s.len(),
{
    if s.len() > 0 && s[s.len() - 1] != c {
        lemma_rfind_in_range(s.drop_last(), c);
    }
}

// ---------------------------------------------------------------------------
// Request assembly.
// ---------------------------------------------------------------------------

/// The content a federation-token request signs: the method and API host,
/// then the sorted parameters.
pub open spec fn spec_sts_sign_source(params: Seq<(String, String)>) -> Seq<char> {
    "POSTsts.tencentcloudapi.com/?"@ + spec_join_params(params)
}

/// Signs the parameter set of a federation-token request: the parameters
/// are sorted by key, joined, prefixed with the method and API host, and
/// HMAC-SHA1-signed base64-rendered under the secret key.
pub fn sts_sign_params(secret_key: &str, params: Vec<(String, String)>) -> (r: String)
    ensures
        exists|s: Seq<(String, String)>|
            #![auto]
            s.to_multiset() == params@.to_multiset() && spec_sorted_by_key(s) && r@
                == spec_sign_content(
                secret_key@,
                spec_sts_sign_source(s),
                SignAlgorithm::Base64,
            ),
{
    let sorted = sort_pairs_by_key(params);
    let joined = join_params(&sorted);
    let mut source = String::from_str("POSTsts.tencentcloudapi.com/?");
    source.append(joined.as_str());
    let r = generate_sign_content(secret_key, source.as_str(), SignAlgorithm::Base64);
    proof {
        assert(sorted@.to_multiset() == params@.to_multiset() && spec_sorted_by_key(sorted@) && r@
            == spec_sign_content(
            secret_key@,
            spec_sts_sign_source(sorted@),
            SignAlgorithm::Base64,
        ));
    }
    r
}

/// The virtual-host name of a bucket in a region.
pub open spec fn spec_cos_host(bucket: Seq<char>, region: Seq<char>) -> Seq<char> {
    bucket + ".cos."@ + region + ".myqcloud.com"@
}

/// Builds the virtual-host name of a bucket.
pub fn cos_host(bucket: &str, region: &str) -> (r: String)
    ensures
        r@ == spec_cos_host(bucket@, region@),
{
    let mut s = bucket.to_owned();
    s.append(".cos.");
    s.append(region);
    s.append(".myqcloud.com");
    s
}

/// The full URL of an object request.
pub open spec fn spec_cos_url(host: Seq<char>, path: Seq<char>) -> Seq<char> {
    "https://"@ + host + path
}

/// Builds the full URL of an object request.
pub fn cos_url(host: &str, path: &str) -> (r: String)
    ensures
        r@ == spec_cos_url(host@, path@),
{
    let mut s = String::from_str("https://");
    s.append(host);
    s.append(path);
    s
}

/// The authorization value of an object-storage request: the derived sign
/// key over the validity window, the canonical request string over the
/// sorted, lowercased header and parameter lists, and the final rendered
/// signature. `headers` must already carry the `Host` header.
pub fn cos_request_authorization(
    secrets: &Secrets,
    method_lower: &str,
    path: &str,
    headers: Vec<(String, String)>,
    query_params: Vec<(String, String)>,
    key_time: &str,
) -> (r: String)
    ensures
        exists|hs: Seq<(String, String)>, qs: Seq<(String, String)>|
            #![auto]
            hs.to_multiset() == headers@.to_multiset() && spec_sorted_by_key(hs)
                && qs.to_multiset() == query_params@.to_multiset() && spec_sorted_by_key(qs) && r@
                == spec_sign(
                secrets.secret_id@,
                key_time@,
                spec_join_keys_lower(hs),
                spec_join_keys_lower(qs),
                spec_sign_content(
                    spec_sign_content(secrets.secret_key@, key_time@, SignAlgorithm::Hex),
                    spec_string_to_sign(
                        key_time@,
                        spec_http_string(
                            method_lower@,
                            path@,
                            spec_join_params_lower(qs),
                            spec_join_params_lower(hs),
                        ),
                    ),
                    SignAlgorithm::Hex,
                ),
            ),
{
    let sign_key = generate_sign_content(secrets.secret_key, key_time, SignAlgorithm::Hex);
    let query_lists = generate_key_list_and_key_val_pair(query_params);
    let header_lists = generate_key_list_and_key_val_pair(headers);
    let http_string = generate_http_string(
        method_lower,
        path,
        query_lists.1.as_str(),
        header_lists.1.as_str(),
    );
    let string_to_sign = generate_string_to_sign(key_time, http_string.as_str());
    let signature = generate_sign_content(
        sign_key.as_str(),
        string_to_sign.as_str(),
        SignAlgorithm::Hex,
    );
    generate_sign(
        secrets.secret_id,
        key_time,
        header_lists.0.as_str(),
        query_lists.0.as_str(),
        signature.as_str(),
    )
}

} // verus!
