use sso_rs::numfmt::{i32_to_string, i64_to_string, u64_to_string};
use sso_rs::qcloud::{
    cos_host, cos_request_authorization, cos_url, generate_http_string, generate_key_time,
    generate_key_list_and_key_val_pair, generate_sign, generate_sign_content,
    generate_string_to_sign, get_policy, join_params, object_to_str, rfind_char, sts_sign_params,
    sort_pairs_by_key, PolicyScope, Secrets, SignAlgorithm,
};

fn pairs(v: &[(&str, &str)]) -> Vec<(String, String)> {
    v.iter()
        .map(|(k, val)| (k.to_string(), val.to_string()))
        .collect()
}

#[test]
fn decimal_formatting_matches_std() {
    assert_eq!(u64_to_string(0), "0");
    assert_eq!(u64_to_string(7), "7");
    assert_eq!(u64_to_string(1234567890), "1234567890");
    assert_eq!(u64_to_string(u64::MAX), u64::MAX.to_string());
    assert_eq!(i64_to_string(-1), "-1");
    assert_eq!(i64_to_string(-1234567890), "-1234567890");
    assert_eq!(i64_to_string(i64::MIN), i64::MIN.to_string());
    assert_eq!(i64_to_string(i64::MAX), i64::MAX.to_string());
    assert_eq!(i32_to_string(-42), "-42");
}

#[test]
fn key_time_is_a_window() {
    assert_eq!(generate_key_time(1700000000, 600), "1700000000;1700000600");
}

#[test]
fn sign_content_matches_direct_hmac() {
    let digest = hmac_sha1::hmac_sha1(b"key", b"content").to_vec();
    let expected_b64 = base64::Engine::encode(&base64::engine::general_purpose::STANDARD, &digest);
    let expected_hex = hex::encode(&digest);
    assert_eq!(
        generate_sign_content("key", "content", SignAlgorithm::Base64),
        expected_b64
    );
    assert_eq!(
        generate_sign_content("key", "content", SignAlgorithm::Hex),
        expected_hex
    );
}

#[test]
fn object_to_str_sorts_by_key() {
    let s = object_to_str(pairs(&[("b", "2"), ("a", "1"), ("c", "3")]));
    assert_eq!(s, "a=1&b=2&c=3");
    let empty = object_to_str(Vec::new());
    assert_eq!(empty, "");
    let one = object_to_str(pairs(&[("k", "v")]));
    assert_eq!(one, "k=v");
}

#[test]
fn sorting_is_stable_under_presorted_input() {
    let sorted = sort_pairs_by_key(pairs(&[("Action", "x"), ("Nonce", "y"), ("Region", "z")]));
    assert_eq!(join_params(&sorted), "Action=x&Nonce=y&Region=z");
}

#[test]
fn key_list_pairs_lowercase_keys() {
    let (list, kv) = generate_key_list_and_key_val_pair(pairs(&[
        ("Host", "example.com"),
        ("Content-Type", "text/plain"),
    ]));
    assert_eq!(list, "content-type;host");
    assert_eq!(kv, "content-type=text/plain&host=example.com");
}

#[test]
fn http_string_and_string_to_sign_have_their_shape() {
    let hs = generate_http_string("get", "/a.txt", "p=1", "host=example.com");
    assert_eq!(hs, "get\n/a.txt\np=1\nhost=example.com\n");
    let sts = generate_string_to_sign("1;2", &hs);
    let expected_digest = hex::encode(openssl::sha::sha1(hs.as_bytes()));
    assert_eq!(sts, format!("sha1\n1;2\n{}\n", expected_digest));
}

#[test]
fn sign_string_lists_every_field() {
    let s = generate_sign("id", "1;2", "host", "", "abc");
    assert_eq!(
        s,
        "q-sign-algorithm=sha1&q-ak=id&q-sign-time=1;2&q-key-time=1;2&q-header-list=host&q-url-param-list=&q-signature=abc"
    );
}

#[test]
fn cos_request_authorization_composes_the_chain() {
    let secrets = Secrets::new("sid", "skey");
    let headers = pairs(&[("Host", "bkt-125.cos.ap.myqcloud.com")]);
    let auth = cos_request_authorization(&secrets, "head", "/x.jpg", headers, Vec::new(), "1;2");

    // Recompute the chain by hand with the outside crates.
    let sign_key = hex::encode(hmac_sha1::hmac_sha1(b"skey", b"1;2"));
    let http_string = "head\n/x.jpg\n\nhost=bkt-125.cos.ap.myqcloud.com\n";
    let string_to_sign = format!(
        "sha1\n1;2\n{}\n",
        hex::encode(openssl::sha::sha1(http_string.as_bytes()))
    );
    let signature = hex::encode(hmac_sha1::hmac_sha1(
        sign_key.as_bytes(),
        string_to_sign.as_bytes(),
    ));
    let expected = format!(
        "q-sign-algorithm=sha1&q-ak=sid&q-sign-time=1;2&q-key-time=1;2&q-header-list=host&q-url-param-list=&q-signature={}",
        signature
    );
    assert_eq!(auth, expected);
}

#[test]
fn sts_signature_matches_direct_computation() {
    let params = pairs(&[("B", "2"), ("A", "1")]);
    let signed = sts_sign_params("skey", params);
    let source = "POSTsts.tencentcloudapi.com/?A=1&B=2";
    let expected = base64::Engine::encode(
        &base64::engine::general_purpose::STANDARD,
        hmac_sha1::hmac_sha1(b"skey", source.as_bytes()),
    );
    assert_eq!(signed, expected);
}

#[test]
fn policy_builds_scoped_resources() {
    let scope: PolicyScope = ("name/cos:PutObject", "images-1250000000", "ap-guangzhou", "images/*")
        .into();
    let policy = get_policy(vec![scope]);
    assert_eq!(policy.version, "2.0");
    assert_eq!(policy.statement.len(), 1);
    assert_eq!(policy.statement[0].action, "name/cos:PutObject");
    assert_eq!(policy.statement[0].effect, "allow");
    assert_eq!(policy.statement[0].principal.qcs, "*");
    assert_eq!(
        policy.statement[0].resource,
        "qcs::cos:ap-guangzhou:uid/1250000000:prefix//1250000000/images/images/*"
    );
}

#[test]
fn policy_service_listing_uses_wildcard_resource() {
    let scope: PolicyScope = ("name/cos:GetService", "images-1250000000", "ap", "x").into();
    let policy = get_policy(vec![scope]);
    assert_eq!(policy.statement[0].resource, "*");
}

#[test]
fn rfind_locates_the_last_dash() {
    assert_eq!(rfind_char("a-b-c", '-'), Some(3));
    assert_eq!(rfind_char("abc", '-'), None);
    assert_eq!(rfind_char("-", '-'), Some(0));
}

#[test]
fn host_and_url_assembly() {
    let host = cos_host("bkt-125", "ap-guangzhou");
    assert_eq!(host, "bkt-125.cos.ap-guangzhou.myqcloud.com");
    assert_eq!(
        cos_url(&host, "/a.txt"),
        "https://bkt-125.cos.ap-guangzhou.myqcloud.com/a.txt"
    );
}
