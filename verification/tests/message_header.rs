use net_sync::common::message_header::{DataType, EnumError, MessageHeader, MessageType};

fn message_types() -> Vec<MessageType> {
    vec![
        MessageType::Helo,
        MessageType::Hsk,
        MessageType::Ping,
        MessageType::Data,
        MessageType::Bye,
    ]
}

fn data_types() -> Vec<DataType> {
    vec![
        DataType::NoData,
        DataType::Rpc,
        DataType::Replication,
        DataType::Despawn,
    ]
}

#[test]
fn header_packs_type_and_data() {
    let header = MessageHeader::new(MessageType::Data, DataType::Replication);
    assert_eq!(header.get_data(), 14);
    assert_eq!(header.get_message_type(), MessageType::Data);
    assert_eq!(header.get_data_type(), DataType::Replication);
}

#[test]
fn header_byte_is_type_shifted_by_two_or_data() {
    assert_eq!(MessageHeader::new(MessageType::Helo, DataType::NoData).get_data(), 0);
    assert_eq!(MessageHeader::new(MessageType::Helo, DataType::Rpc).get_data(), 1);
    assert_eq!(MessageHeader::new(MessageType::Hsk, DataType::NoData).get_data(), 4);
    assert_eq!(MessageHeader::new(MessageType::Ping, DataType::Rpc).get_data(), 9);
    assert_eq!(MessageHeader::new(MessageType::Data, DataType::Rpc).get_data(), 13);
    assert_eq!(MessageHeader::new(MessageType::Data, DataType::Despawn).get_data(), 15);
    assert_eq!(MessageHeader::new(MessageType::Bye, DataType::NoData).get_data(), 16);
    assert_eq!(MessageHeader::new(MessageType::Bye, DataType::Despawn).get_data(), 19);
}

#[test]
fn decode_gives_back_every_encoded_pair() {
    for message_type in message_types() {
        for data_type in data_types() {
            let byte = MessageHeader::new(message_type, data_type).get_data();
            let header = MessageHeader::from_data(byte);
            assert_eq!(header.decode(), Ok((message_type, data_type)));
            assert_eq!(header.get_message_type(), message_type);
            assert_eq!(header.get_data_type(), data_type);
        }
    }
}

#[test]
fn encode_gives_back_every_decoded_byte() {
    for byte in 0u8..20 {
        let (message_type, data_type) = MessageHeader::from_data(byte).decode().unwrap();
        assert_eq!(MessageHeader::new(message_type, data_type).get_data(), byte);
    }
}

#[test]
fn decode_fails_on_every_byte_past_the_last_message_type() {
    for byte in 20u8..=255 {
        assert_eq!(MessageHeader::from_data(byte).decode(), Err(EnumError));
    }
    for byte in 0u8..20 {
        assert!(MessageHeader::from_data(byte).decode().is_ok());
    }
}

#[test]
fn message_type_from_number() {
    assert_eq!(MessageType::try_from(0), Ok(MessageType::Helo));
    assert_eq!(MessageType::try_from(1), Ok(MessageType::Hsk));
    assert_eq!(MessageType::try_from(2), Ok(MessageType::Ping));
    assert_eq!(MessageType::try_from(3), Ok(MessageType::Data));
    assert_eq!(MessageType::try_from(4), Ok(MessageType::Bye));
    assert_eq!(MessageType::try_from(5), Err(EnumError));
    assert_eq!(MessageType::try_from(63), Err(EnumError));
    assert_eq!(MessageType::try_from(255), Err(EnumError));
}

#[test]
fn data_type_from_number() {
    assert_eq!(DataType::try_from(0), Ok(DataType::NoData));
    assert_eq!(DataType::try_from(1), Ok(DataType::Rpc));
    assert_eq!(DataType::try_from(2), Ok(DataType::Replication));
    assert_eq!(DataType::try_from(3), Ok(DataType::Despawn));
    assert_eq!(DataType::try_from(4), Err(EnumError));
}

#[test]
fn numbers_of_the_variants() {
    assert_eq!(MessageType::Helo.to_u8(), 0);
    assert_eq!(MessageType::Bye.to_u8(), 4);
    assert_eq!(DataType::NoData.to_u8(), 0);
    assert_eq!(DataType::Despawn.to_u8(), 3);
}

#[test]
fn data_type_is_read_from_the_low_two_bits_of_any_byte() {
    assert_eq!(MessageHeader::from_data(0xff).get_data_type(), DataType::Despawn);
    assert_eq!(MessageHeader::from_data(0xfc).get_data_type(), DataType::NoData);
    assert_eq!(MessageHeader::from_data(0x81).get_data_type(), DataType::Rpc);
}

#[test]
fn is_rpc_follows_the_data_type() {
    assert!(MessageHeader::new(MessageType::Data, DataType::Rpc).is_rpc());
    assert!(MessageHeader::new(MessageType::Helo, DataType::Rpc).is_rpc());
    assert!(!MessageHeader::new(MessageType::Data, DataType::Replication).is_rpc());
    assert!(!MessageHeader::new(MessageType::Data, DataType::Despawn).is_rpc());
    assert!(!MessageHeader::new(MessageType::Data, DataType::NoData).is_rpc());
}

#[test]
fn from_data_keeps_the_byte() {
    for byte in 0u8..=255 {
        assert_eq!(MessageHeader::from_data(byte).get_data(), byte);
    }
}
