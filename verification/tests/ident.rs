use session_mux::error::MyError;
use session_mux::ident::parse_client_id;

const ID: u128 = 0xa1a2a3a4_b1b2_c1c2_d1d2_d3d4d5d6d7d8;

#[test]
fn hyphenated_text_is_read() {
    assert_eq!(
        parse_client_id("a1a2a3a4-b1b2-c1c2-d1d2-d3d4d5d6d7d8").unwrap(),
        ID
    );
    assert_eq!(
        parse_client_id("00000000-0000-0000-0000-000000000000").unwrap(),
        0
    );
    assert_eq!(
        parse_client_id("ffffffff-ffff-ffff-ffff-ffffffffffff").unwrap(),
        u128::MAX
    );
}

#[test]
fn other_accepted_forms_are_read() {
    assert_eq!(parse_client_id("a1a2a3a4b1b2c1c2d1d2d3d4d5d6d7d8").unwrap(), ID);
    assert_eq!(
        parse_client_id("A1A2A3A4-B1B2-C1C2-D1D2-D3D4D5D6D7D8").unwrap(),
        ID
    );
    assert_eq!(
        parse_client_id("{a1a2a3a4-b1b2-c1c2-d1d2-d3d4d5d6d7d8}").unwrap(),
        ID
    );
    assert_eq!(
        parse_client_id("urn:uuid:a1a2a3a4-b1b2-c1c2-d1d2-d3d4d5d6d7d8").unwrap(),
        ID
    );
}

#[test]
fn other_text_is_an_invalid_uuid() {
    for text in [
        "",
        "S1",
        "a1a2a3a4-b1b2-c1c2-d1d2-d3d4d5d6d7d",
        "a1a2a3a4-b1b2-c1c2-d1d2-d3d4d5d6d7d8 ",
        "g1a2a3a4-b1b2-c1c2-d1d2-d3d4d5d6d7d8",
        "a1a2a3a4b1b2-c1c2-d1d2-d3d4d5d6d7d8-",
    ] {
        match parse_client_id(text) {
            Err(MyError::InvalidUuid(message)) => assert!(!message.is_empty(), "{}", text),
            other => panic!("unexpected {:?} for {:?}", other, text),
        }
    }
}

#[test]
fn invalid_uuid_carries_the_parsers_message() {
    match parse_client_id("g1a2a3a4-b1b2-c1c2-d1d2-d3d4d5d6d7d8") {
        Err(e) => {
            assert_eq!(
                e.to_string(),
                format!(
                    "InvalidUuid: {}",
                    uuid::Uuid::parse_str("g1a2a3a4-b1b2-c1c2-d1d2-d3d4d5d6d7d8").unwrap_err()
                )
            );
        }
        Ok(id) => panic!("unexpected {}", id),
    }
}
