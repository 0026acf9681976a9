use shared_models::ConnectionData;
use shared_models::CorruptionError;
use shared_models::MAX_DATA_PART_BYTES;
use shared_models::NETCODE_USER_DATA_BYTES;

fn get_valid_connection_data() -> ConnectionData {
    ConnectionData::try_new("username", "lobby").unwrap()
}

fn get_valid_weird_connection_data() -> ConnectionData {
    ConnectionData::try_new(" 😊🐬💕😘👌  \n", "\t😊🐬💕aa😘👌  \n").unwrap()
}

#[test]
fn can_be_created_from_valid_data() {
    let data = ConnectionData::try_new("username", "lobby");
    assert!(data.is_some());
}

#[test]
fn cannot_be_created_from_invalid_data() {
    let username = std::iter::repeat("a").take(300).collect::<String>();
    let data = ConnectionData::try_new(&username, "lobby");
    assert!(data.is_none());
}

#[test]
fn creates_netcode_bytes() {
    let data = get_valid_connection_data();
    let netcode_bytes = data.to_netcode_user_data();
    assert_eq!(netcode_bytes.len(), NETCODE_USER_DATA_BYTES);
}

#[test]
fn turns_own_netcode_back_into_itself() {
    let sent_data = get_valid_connection_data();
    let netcode_bytes = sent_data.to_netcode_user_data();
    let received_data = ConnectionData::from_user_data(&netcode_bytes).unwrap();
    assert_eq!(sent_data, received_data);
}

#[test]
fn turns_own_netcode_back_into_itself_with_weird_data() {
    let sent_data = get_valid_weird_connection_data();
    let netcode_bytes = sent_data.to_netcode_user_data();
    let received_data = ConnectionData::from_user_data(&netcode_bytes).unwrap();
    assert_eq!(sent_data, received_data);
}

#[test]
fn field_of_exactly_the_slot_size_is_accepted() {
    let field = "a".repeat(MAX_DATA_PART_BYTES);
    assert!(ConnectionData::is_valid_data_part(&field));
    assert!(ConnectionData::try_new(&field, &field).is_some());
}

#[test]
fn field_one_byte_over_the_slot_size_is_rejected() {
    let field = "a".repeat(MAX_DATA_PART_BYTES + 1);
    assert!(!ConnectionData::is_valid_data_part(&field));
    assert!(ConnectionData::try_new(&field, "lobby").is_none());
    assert!(ConnectionData::try_new("username", &field).is_none());
}

#[test]
fn byte_length_not_character_count_is_bounded() {
    // 32 four-byte emoji: only 32 characters, but 128 bytes — one over the slot.
    let emoji = "😊".repeat(32);
    assert_eq!(emoji.chars().count(), 32);
    assert!(!ConnectionData::is_valid_data_part(&emoji));
    // 31 of them plus three ASCII bytes is exactly 127 bytes.
    let fitting = format!("{}abc", "😊".repeat(31));
    assert!(ConnectionData::is_valid_data_part(&fitting));
}

#[test]
fn encodes_the_documented_layout() {
    let data = get_valid_connection_data();
    let buf = data.to_netcode_user_data();
    assert_eq!(buf.len(), 256);
    assert_eq!(buf[0], 8);
    assert_eq!(buf[1], 5);
    assert_eq!(&buf[2..10], b"username");
    for i in 10..129 {
        assert_eq!(buf[i], 0);
    }
    assert_eq!(&buf[129..134], b"lobby");
    for i in 134..256 {
        assert_eq!(buf[i], 0);
    }
    let received = ConnectionData::from_user_data(&buf).unwrap();
    assert_eq!(received.username, "username");
    assert_eq!(received.lobby, "lobby");
}

#[test]
fn rejects_a_block_of_the_wrong_size() {
    let short = vec![0u8; 10];
    assert_eq!(
        ConnectionData::from_user_data(&short),
        Err(CorruptionError::WrongBufferLength)
    );
    let long = vec![0u8; 300];
    assert_eq!(
        ConnectionData::from_user_data(&long),
        Err(CorruptionError::WrongBufferLength)
    );
}

#[test]
fn rejects_a_length_header_past_the_slot() {
    let mut buf = vec![0u8; NETCODE_USER_DATA_BYTES];
    buf[0] = (MAX_DATA_PART_BYTES + 1) as u8;
    assert_eq!(
        ConnectionData::from_user_data(&buf),
        Err(CorruptionError::LengthOutOfRange)
    );
    let mut buf = vec![0u8; NETCODE_USER_DATA_BYTES];
    buf[1] = 255;
    assert_eq!(
        ConnectionData::from_user_data(&buf),
        Err(CorruptionError::LengthOutOfRange)
    );
}

#[test]
fn rejects_bytes_that_are_not_utf8() {
    let mut buf = vec![0u8; NETCODE_USER_DATA_BYTES];
    buf[0] = 1;
    buf[2] = 0xFF;
    assert_eq!(
        ConnectionData::from_user_data(&buf),
        Err(CorruptionError::InvalidUtf8)
    );
}

#[test]
fn decodes_an_all_zero_block_to_empty_fields() {
    let buf = vec![0u8; NETCODE_USER_DATA_BYTES];
    let received = ConnectionData::from_user_data(&buf).unwrap();
    assert_eq!(received.username, "");
    assert_eq!(received.lobby, "");
}
