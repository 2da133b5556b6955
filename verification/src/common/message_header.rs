//! The one-byte header that opens every datagram.
//!
//! The high six bits hold the message type, the low two bits the kind of data
//! that a `Data` message carries: `byte = (type << 2) | (data & 0x3)`.

use vstd::prelude::*;

verus! {

/// What a datagram is for.
#[derive(Debug, Clone, Copy, PartialEq, Eq, Structural)]
pub enum MessageType {
    Helo,
    Hsk,
    Ping,
    Data,
    Bye,
}

/// What the payload of a `Data` datagram holds.
#[derive(Debug, Clone, Copy, PartialEq, Eq, Structural)]
pub enum DataType {
    NoData,
    Rpc,
    Replication,
    Despawn,
}

/// The error of a number that names no variant.
#[derive(Debug, Clone, Copy, PartialEq, Eq, Structural)]
pub struct EnumError;

/// A header byte, as it travels.
#[derive(Debug, Clone, Copy, PartialEq, Eq, Structural)]
pub struct MessageHeader {
    pub data: u8,
}

/// The largest number that names a message type.
pub const MAX_MESSAGE_TYPE: u8 = 4;

impl MessageType {
    /// The number of a message type on the wire.
    pub open spec fn code(self) -> u8 {
        match self {
            MessageType::Helo => 0,
            MessageType::Hsk => 1,
            MessageType::Ping => 2,
            MessageType::Data => 3,
            MessageType::Bye => 4,
        }
    }

    /// The message type that a number names, or the error if it names none.
    pub open spec fn from_code(value: u8) -> Result<MessageType, EnumError> {
        if value == 0 {
            Ok(MessageType::Helo)
        } else if value == 1 {
            Ok(MessageType::Hsk)
        } else if value == 2 {
            Ok(MessageType::Ping)
        } else if value == 3 {
            Ok(MessageType::Data)
        } else if value == 4 {
            Ok(MessageType::Bye)
        } else {
            Err(EnumError)
        }
    }

    /// The number of this message type on the wire.
    pub fn to_u8(self) -> (value: u8)
        ensures
            value == self.code(),
            value <= MAX_MESSAGE_TYPE,
    {
        match self {
            MessageType::Helo => 0,
            MessageType::Hsk => 1,
            MessageType::Ping => 2,
            MessageType::Data => 3,
            MessageType::Bye => 4,
        }
    }

    /// Reads a message type from its number. Fails exactly on the numbers
    /// above `MAX_MESSAGE_TYPE`.
    pub fn try_from(value: u8) -> (result: Result<MessageType, EnumError>)
        ensures
            result == MessageType::from_code(value),
            result.is_ok() <==> value <= MAX_MESSAGE_TYPE,
            result matches Ok(t) ==> t.code() == value,
    {
        match value {
            0 => Ok(MessageType::Helo),
            1 => Ok(MessageType::Hsk),
            2 => Ok(MessageType::Ping),
            3 => Ok(MessageType::Data),
            4 => Ok(MessageType::Bye),
            _ => Err(EnumError),
        }
    }
}

impl DataType {
    /// The number of a data type on the wire.
    pub open spec fn code(self) -> u8 {
        match self {
            DataType::NoData => 0,
            DataType::Rpc => 1,
            DataType::Replication => 2,
            DataType::Despawn => 3,
        }
    }

    /// The data type that a number names, or the error if it names none.
    pub open spec fn from_code(value: u8) -> Result<DataType, EnumError> {
        if value == 0 {
            Ok(DataType::NoData)
        } else if value == 1 {
            Ok(DataType::Rpc)
        } else if value == 2 {
            Ok(DataType::Replication)
        } else if value == 3 {
            Ok(DataType::Despawn)
        } else {
            Err(EnumError)
        }
    }

    /// The number of this data type on the wire.
    pub fn to_u8(self) -> (value: u8)
        ensures
            value == self.code(),
            value <= 3,
    {
        match self {
            DataType::NoData => 0,
            DataType::Rpc => 1,
            DataType::Replication => 2,
            DataType::Despawn => 3,
        }
    }

    /// Reads a data type from its number. Fails exactly on the numbers above 3.
    pub fn try_from(value: u8) -> (result: Result<DataType, EnumError>)
        ensures
            result == DataType::from_code(value),
            result.is_ok() <==> value <= 3,
            result matches Ok(d) ==> d.code() == value,
    {
        match value {
            0 => Ok(DataType::NoData),
            1 => Ok(DataType::Rpc),
            2 => Ok(DataType::Replication),
            3 => Ok(DataType::Despawn),
            _ => Err(EnumError),
        }
    }
}

/// The header byte of a message type and a data type.
pub open spec fn encode(message_type: MessageType, data_type: DataType) -> u8 {
    (message_type.code() << 2) | (data_type.code() & 0x3)
}

/// The message type and the data type that a header byte holds, or the error
/// if its high bits name no message type.
pub open spec fn decode(byte: u8) -> Result<(MessageType, DataType), EnumError> {
    match (MessageType::from_code(byte >> 2), DataType::from_code(byte & 0x3)) {
        (Ok(message_type), Ok(data_type)) => Ok((message_type, data_type)),
        _ => Err(EnumError),
    }
}

/// The bits of a header byte taken apart and put together again.
proof fn lemma_header_bits(t: u8, d: u8)
    requires
        t <= 4,
        d <= 3,
    ensures
        ((t << 2) | (d & 0x3)) >> 2 == t,
        ((t << 2) | (d & 0x3)) & 0x3 == d,
{
    assert(((t << 2) | (d & 0x3)) >> 2 == t) by (bit_vector)
        requires
            t <= 4,
            d <= 3,
    ;
    assert(((t << 2) | (d & 0x3)) & 0x3 == d) by (bit_vector)
        requires
            t <= 4,
            d <= 3,
    ;
}

/// The low two bits of a byte are a number up to 3, and the high bits are
/// past the largest message type exactly when the byte is 20 or more.
proof fn lemma_byte_fields(byte: u8)
    ensures
        byte & 0x3 <= 3,
        byte >> 2 <= 4 <==> byte < 20,
        ((byte >> 2) << 2) | ((byte & 0x3) & 0x3) == byte,
{
    assert(byte & 0x3 <= 3) by (bit_vector);
    assert(byte >> 2 <= 4 <==> byte < 20) by (bit_vector);
    assert(((byte >> 2) << 2) | ((byte & 0x3) & 0x3) == byte) by (bit_vector);
}

/// Decoding an encoded header gives back the message type and the data type.
pub proof fn lemma_decode_encode(message_type: MessageType, data_type: DataType)
    ensures
        decode(encode(message_type, data_type)) == Ok::<(MessageType, DataType), EnumError>(
            (message_type, data_type),
        ),
{
    lemma_header_bits(message_type.code(), data_type.code());
}

/// Encoding what a byte decodes to gives back the byte.
pub proof fn lemma_encode_decode(byte: u8)
    requires
        decode(byte).is_ok(),
    ensures
        encode(decode(byte).unwrap().0, decode(byte).unwrap().1) == byte,
{
    lemma_byte_fields(byte);
}

/// A byte decodes exactly when its high six bits are at most the largest
/// message type; every other byte is refused.
pub proof fn lemma_decode_fails_above_max(byte: u8)
    ensures
        byte >> 2 > MAX_MESSAGE_TYPE <==> decode(byte) == Err::<(MessageType, DataType), EnumError>(
            EnumError,
        ),
        decode(byte).is_ok() <==> byte >> 2 <= MAX_MESSAGE_TYPE,
{
    lemma_byte_fields(byte);
}

impl MessageHeader {
    /// Whether the byte names a message type.
    pub open spec fn is_valid(self) -> bool {
        decode(self.data).is_ok()
    }

    /// The message type in the high bits. Meaningful on a valid header.
    pub open spec fn message_type(self) -> MessageType {
        decode(self.data).unwrap().0
    }

    /// The data type in the low two bits. Every byte has one.
    pub open spec fn data_type(self) -> DataType {
        DataType::from_code(self.data & 0x3).unwrap()
    }

    /// Packs a message type and a data type into a header.
    pub fn new(message_type: MessageType, data_type: DataType) -> (header: Self)
        ensures
            header.data == encode(message_type, data_type),
            header.is_valid(),
            header.message_type() == message_type,
            header.data_type() == data_type,
    {
        let t: u8 = message_type.to_u8();
        let d: u8 = data_type.to_u8();
        proof {
            lemma_decode_encode(message_type, data_type);
        }
        assert(t << 2 <= 16) by (bit_vector)
            requires
                t <= 4,
        ;
        let data: u8 = (t << 2) | (d & 0x3);
        MessageHeader { data }
    }

    /// Takes a byte off the wire as a header, whatever it holds.
    pub fn from_data(data: u8) -> (header: Self)
        ensures
            header.data == data,
    {
        MessageHeader { data }
    }

    /// Takes the header apart. Fails, and never panics, exactly on the bytes
    /// whose high six bits exceed the largest message type.
    pub fn decode(&self) -> (result: Result<(MessageType, DataType), EnumError>)
        ensures
            result == decode(self.data),
            result.is_ok() <==> self.is_valid(),
            result.is_err() <==> self.data >> 2 > MAX_MESSAGE_TYPE,
    {
        proof {
            lemma_byte_fields(self.data);
        }
        let high: u8 = self.data >> 2;
        let low: u8 = self.data & 0x3;
        match MessageType::try_from(high) {
            Ok(message_type) => match DataType::try_from(low) {
                Ok(data_type) => Ok((message_type, data_type)),
                Err(e) => Err(e),
            },
            Err(e) => Err(e),
        }
    }

    /// The message type of a valid header.
    pub fn get_message_type(&self) -> (message_type: MessageType)
        requires
            self.is_valid(),
        ensures
            message_type == self.message_type(),
            MessageType::from_code(self.data >> 2) == Ok::<MessageType, EnumError>(message_type),
    {
        proof {
            lemma_byte_fields(self.data);
        }
        match MessageType::try_from(self.data >> 2) {
            Ok(message_type) => message_type,
            Err(_) => MessageType::Helo,
        }
    }

    /// The data type of a header. The low two bits always name one.
    pub fn get_data_type(&self) -> (data_type: DataType)
        ensures
            data_type == self.data_type(),
            DataType::from_code(self.data & 0x3) == Ok::<DataType, EnumError>(data_type),
            self.is_valid() ==> decode(self.data).unwrap().1 == data_type,
    {
        proof {
            lemma_byte_fields(self.data);
        }
        match DataType::try_from(self.data & 0x3) {
            Ok(data_type) => data_type,
            Err(_) => DataType::NoData,
        }
    }

    /// The byte itself.
    pub fn get_data(&self) -> (data: u8)
        ensures
            data == self.data,
    {
        self.data
    }

    /// Whether the low two bits mark the payload as a client command.
    pub fn is_rpc(&self) -> (rpc: bool)
        ensures
            rpc <==> self.data_type() == DataType::Rpc,
    {
        proof {
            lemma_byte_fields(self.data);
        }
        (self.data & 0x3) == 1
    }
}

} // verus!
