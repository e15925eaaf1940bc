use ovh::signature::canonical;
use ovh::signature::tag_digest;
use ovh::OVHClient;

#[test]
fn test_build_sig() {
    let method = "GET";
    let query = "https://eu.api.ovh.com/1.0/ipLoadbalancing";
    let body = "";
    let timestamp = "1466716163";
    let aas = "somesecret";
    let ck = "fakeconsumerkey";
    let signature = OVHClient::build_sig(&method, &query, &body, &timestamp, &aas, &ck);
    assert_eq!(&signature, "$1$7ff04a6c8610e4f96a1c0a04dff50ed760a6b724");
}

#[test]
fn canonical_string_joins_fields_in_order() {
    let text = canonical(
        "GET",
        "https://eu.api.ovh.com/1.0/ipLoadbalancing",
        "",
        "1466716163",
        "somesecret",
        "fakeconsumerkey",
    );
    assert_eq!(
        text,
        "somesecret+fakeconsumerkey+GET+https://eu.api.ovh.com/1.0/ipLoadbalancing++1466716163"
    );
}

#[test]
fn canonical_string_keeps_separators_of_empty_fields() {
    assert_eq!(canonical("", "", "", "", "", ""), "+++++");
    assert_eq!(canonical("m", "u", "b", "t", "s", "c"), "s+c+m+u+b+t");
}

#[test]
fn tag_digest_prefixes_the_tag() {
    assert_eq!(tag_digest("abc"), "$1$abc");
    assert_eq!(tag_digest(""), "$1$");
}

#[test]
fn signature_of_known_texts() {
    // SHA-1 of "+++++" and of the text "s+c+m+u+b+t" differ, and both have the tag and 40 digits.
    let empty = OVHClient::build_sig("", "", "", "", "", "");
    let short = OVHClient::build_sig("m", "u", "b", "t", "s", "c");
    assert_ne!(empty, short);
    for signature in [&empty, &short] {
        assert_eq!(signature.len(), 43);
        assert!(signature.starts_with("$1$"));
        assert!(signature[3..]
            .chars()
            .all(|c| c.is_ascii_digit() || ('a'..='f').contains(&c)));
    }
}

#[test]
fn signature_digests_utf8_bytes() {
    // The canonical string is "+++++" with an "é" as the body: "++++é+".
    // Its SHA-1 is taken over the UTF-8 bytes, so it differs from the one over "++++e+".
    let accented = OVHClient::build_sig("", "", "\u{e9}", "", "", "");
    let plain = OVHClient::build_sig("", "", "e", "", "", "");
    assert_ne!(accented, plain);
    assert_eq!(accented.len(), 43);
}

#[test]
fn signature_is_deterministic() {
    let first = OVHClient::build_sig("POST", "https://eu.api.ovh.com/1.0/me", "{}", "12", "s", "c");
    let second = OVHClient::build_sig("POST", "https://eu.api.ovh.com/1.0/me", "{}", "12", "s", "c");
    assert_eq!(first, second);
}

#[test]
fn signature_changes_with_each_field() {
    let base = OVHClient::build_sig("POST", "https://eu.api.ovh.com/1.0/me", "{}", "12", "s", "c");
    let variants = [
        OVHClient::build_sig("PUT", "https://eu.api.ovh.com/1.0/me", "{}", "12", "s", "c"),
        OVHClient::build_sig("POST", "https://ca.api.ovh.com/1.0/me", "{}", "12", "s", "c"),
        OVHClient::build_sig("POST", "https://eu.api.ovh.com/1.0/me", "[]", "12", "s", "c"),
        OVHClient::build_sig("POST", "https://eu.api.ovh.com/1.0/me", "{}", "13", "s", "c"),
        OVHClient::build_sig("POST", "https://eu.api.ovh.com/1.0/me", "{}", "12", "t", "c"),
        OVHClient::build_sig("POST", "https://eu.api.ovh.com/1.0/me", "{}", "12", "s", "d"),
    ];
    for variant in variants.iter() {
        assert_ne!(&base, variant);
    }
}
