use paraloom::utils::{bytes_to_hex, hex_to_bytes};

#[test]
fn bytes_render_as_lower_case_hex() {
    assert_eq!(bytes_to_hex(&[0x00, 0x0f, 0xa5, 0xff]), "000fa5ff");
    assert_eq!(bytes_to_hex(&[]), "");
}

#[test]
fn hex_parses_in_either_case() {
    assert_eq!(hex_to_bytes("000fA5ff"), Ok(vec![0x00, 0x0f, 0xa5, 0xff]));
    assert_eq!(hex_to_bytes(""), Ok(vec![]));
}

#[test]
fn hex_of_odd_length_is_rejected() {
    assert_eq!(hex_to_bytes("abc"), Err("Hex string must have an even number of characters"));
    assert_eq!(hex_to_bytes("zzz"), Err("Hex string must have an even number of characters"));
}

#[test]
fn hex_with_other_characters_is_rejected() {
    assert_eq!(hex_to_bytes("zz"), Err("Invalid hex character"));
    assert_eq!(hex_to_bytes("0g"), Err("Invalid hex character"));
    assert_eq!(hex_to_bytes("-1"), Err("Invalid hex character"));
    assert_eq!(hex_to_bytes("1+"), Err("Invalid hex character"));
    assert_eq!(hex_to_bytes("é"), Err("Invalid hex character"));
}

#[test]
fn hex_pair_may_carry_a_plus_sign() {
    assert_eq!(hex_to_bytes("+f"), Ok(vec![15]));
    assert_eq!(hex_to_bytes("+f"), u8::from_str_radix("+f", 16).map(|b| vec![b]).map_err(|_| "Invalid hex character"));
}

#[test]
fn hex_round_trip_on_every_byte() {
    let bytes: Vec<u8> = (0..=255).collect();
    assert_eq!(hex_to_bytes(&bytes_to_hex(&bytes)), Ok(bytes));
}
