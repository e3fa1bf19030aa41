use sentiric_registrar_service::canonical::{canonicalize, extract_username};

#[test]
fn plain_sip_uri_keys_by_user() {
    assert_eq!(canonicalize("sip:alice@example.com"), "sip_reg:alice");
}

#[test]
fn bracketed_uri_with_display_name_and_params() {
    assert_eq!(canonicalize("\"Alice\" <sip:alice@example.com;transport=udp>;tag=1"), "sip_reg:alice");
}

#[test]
fn scheme_is_stripped_in_any_case() {
    assert_eq!(canonicalize("SIP:bob@example.com"), "sip_reg:bob");
    assert_eq!(canonicalize("sips:bob@example.com"), "sip_reg:bob");
    assert_eq!(canonicalize("SiPs:bob@example.com"), "sip_reg:bob");
}

#[test]
fn only_one_scheme_is_stripped() {
    assert_eq!(canonicalize("sip:sip:bob@example.com"), "sip_reg:sip:bob");
}

#[test]
fn surrounding_whitespace_is_trimmed() {
    assert_eq!(canonicalize("  sip:carol@example.com\t\n"), "sip_reg:carol");
    assert_eq!(canonicalize("\u{3000}sip:carol@example.com\u{a0}"), "sip_reg:carol");
}

#[test]
fn params_are_dropped_before_the_user_is_taken() {
    assert_eq!(canonicalize("sip:dave;transport=udp"), "sip_reg:dave");
    assert_eq!(canonicalize("sip:dave;x=a@b"), "sip_reg:dave");
}

#[test]
fn no_at_sign_keeps_the_whole_remainder() {
    assert_eq!(canonicalize("sip:1001"), "sip_reg:1001");
    assert_eq!(canonicalize("1001"), "sip_reg:1001");
}

#[test]
fn unclosed_bracket_is_not_unwrapped() {
    assert_eq!(canonicalize("<sip:erin@example.com"), "sip_reg:<sip:erin");
}

#[test]
fn empty_token_falls_back_to_the_untrimmed_input() {
    assert_eq!(canonicalize("   "), "sip_reg:   ");
    assert_eq!(canonicalize(";;;"), "sip_reg:;;;");
    assert_eq!(canonicalize("sip:@example.com"), "sip_reg:sip:@example.com");
    assert_eq!(canonicalize(""), "sip_reg:");
    assert_eq!(canonicalize(" <> "), "sip_reg: <> ");
}

#[test]
fn canonicalize_is_deterministic() {
    let aor = "<sip:frank@example.com>;tag=77";
    assert_eq!(canonicalize(aor), canonicalize(aor));
}

#[test]
fn key_material_read_back_keys_alike() {
    for aor in ["sip:alice@example.com", "<sips:Bob.Smith@h>;tag=1", "   ", ";;;", "alice"] {
        let key = canonicalize(aor);
        let material = key.strip_prefix("sip_reg:").unwrap();
        assert_eq!(canonicalize(material), key);
    }
}

#[test]
fn key_material_with_a_second_scheme_keys_otherwise() {
    let key = canonicalize("sip:sip:bob@h");
    let material = key.strip_prefix("sip_reg:").unwrap();
    assert_ne!(canonicalize(material), key);
}

#[test]
fn three_forms_of_an_aor_share_a_key() {
    for (user, host) in [("alice", "example.com"), ("bob.smith+1", "10.0.0.1:5060"), ("x", "h>")] {
        let bracketed = canonicalize(&format!("<sip:{}@{}>;tag=1", user, host));
        let plain = canonicalize(&format!("sip:{}@{}", user, host));
        let bare = canonicalize(&format!("{}@{}", user, host));
        assert_eq!(bracketed, format!("sip_reg:{}", user));
        assert_eq!(plain, bracketed);
        assert_eq!(bare, bracketed);
    }
}

#[test]
fn forms_differ_for_a_user_with_leading_whitespace() {
    assert_ne!(canonicalize("sip: bob@h"), canonicalize(" bob@h"));
}

#[test]
fn username_is_the_user_token() {
    assert_eq!(extract_username("<sip:alice@example.com>;tag=1"), "alice");
    assert_eq!(extract_username("sip:1001@10.0.0.1"), "1001");
    assert_eq!(extract_username("   "), "");
    assert_eq!(extract_username(";;;"), "");
}
