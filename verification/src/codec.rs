use vstd::prelude::*;
use vstd::bytes::{
    lemma_auto_spec_u32_to_from_le_bytes, lemma_auto_spec_u64_to_from_le_bytes,
    spec_u32_from_le_bytes, spec_u32_to_le_bytes, spec_u64_from_le_bytes, spec_u64_to_le_bytes,
    u32_from_le_bytes, u32_to_le_bytes, u64_from_le_bytes, u64_to_le_bytes,
};
use vstd::slice::slice_subrange;
use vstd::utf8::{decode_utf8, encode_utf8, valid_utf8};
use crate::errors::ErrorCode;
use crate::strfmt::{bytes_range, string_from_utf8};

verus! {

// Message type constants
pub const MSG_TYPE_REGULAR: u8 = 0;
pub const MSG_TYPE_COMPOSE: u8 = 1;

// Command tags, matching the remote-chain side
pub const COMMAND_UPDATE_COLLECTION_METADATA: u8 = 0;
pub const COMMAND_BATCH_UPDATE_CNFTS: u8 = 1;
pub const COMMAND_TRANSFER_AUTHORITY: u8 = 2;
pub const COMMAND_EMERGENCY_PAUSE: u8 = 3;
pub const COMMAND_EMERGENCY_UNPAUSE: u8 = 4;

// The single supported envelope version
pub const MESSAGE_VERSION: u8 = 1;

// The fixed envelope header: version(1) + command(1) + nonce(8) +
// timestamp(8) + payload length(4)
pub const HEADER_LENGTH: usize = 22;

// Maximum accepted message size in bytes
pub const MAX_MESSAGE_SIZE: usize = 65536;

/// The two's-complement bit pattern of a signed 64-bit value.
pub open spec fn u64_bits_of_i64(t: i64) -> u64 {
    if t >= 0 {
        t as u64
    } else {
        ((t as int) + 0x1_0000_0000_0000_0000) as u64
    }
}

/// The signed 64-bit value whose two's-complement bit pattern is given.
pub open spec fn i64_of_u64_bits(u: u64) -> i64 {
    if u <= (i64::MAX as u64) {
        u as i64
    } else {
        ((u as int) - 0x1_0000_0000_0000_0000) as i64
    }
}

pub proof fn lemma_i64_bits_roundtrip(t: i64)
    ensures
        i64_of_u64_bits(u64_bits_of_i64(t)) == t,
{
}

fn i64_to_bits(t: i64) -> (u: u64)
    ensures
        u == u64_bits_of_i64(t),
{
    if t >= 0 {
        t as u64
    } else {
        (((t as i128) + 0x1_0000_0000_0000_0000i128) as u64)
    }
}

fn bits_to_i64(u: u64) -> (t: i64)
    ensures
        t == i64_of_u64_bits(u),
{
    if u <= (i64::MAX as u64) {
        u as i64
    } else {
        (((u as i128) - 0x1_0000_0000_0000_0000i128) as i64)
    }
}

/// A decoded wire envelope.
#[derive(Debug)]
pub struct DecodedMessage {
    pub version: u8,
    pub command: u8,
    pub nonce: u64,
    pub timestamp: i64,
    pub payload: Vec<u8>,
}

#[verifier::ext_equal]
pub struct DecodedMessageV {
    pub version: u8,
    pub command: u8,
    pub nonce: u64,
    pub timestamp: i64,
    pub payload: Seq<u8>,
}

impl View for DecodedMessage {
    type V = DecodedMessageV;

    open spec fn view(&self) -> DecodedMessageV {
        DecodedMessageV {
            version: self.version,
            command: self.command,
            nonce: self.nonce,
            timestamp: self.timestamp,
            payload: self.payload@,
        }
    }
}

/// A decoded collection-metadata update payload.
#[derive(Debug)]
pub struct UpdateMetadataPayload {
    pub uri: String,
    pub name: String,
    pub symbol: String,
}

#[verifier::ext_equal]
pub struct UpdateMetadataPayloadV {
    pub uri: Seq<char>,
    pub name: Seq<char>,
    pub symbol: Seq<char>,
}

impl View for UpdateMetadataPayload {
    type V = UpdateMetadataPayloadV;

    open spec fn view(&self) -> UpdateMetadataPayloadV {
        UpdateMetadataPayloadV { uri: self.uri@, name: self.name@, symbol: self.symbol@ }
    }
}

/// The wire form of an envelope:
/// [version(1) | command(1) | nonce(8,LE) | timestamp(8,LE) | payload_len(4,LE) | payload].
pub open spec fn spec_encode_message(
    command: u8,
    nonce: u64,
    timestamp: i64,
    payload: Seq<u8>,
) -> Seq<u8> {
    seq![MESSAGE_VERSION, command] + spec_u64_to_le_bytes(nonce) + spec_u64_to_le_bytes(
        u64_bits_of_i64(timestamp),
    ) + spec_u32_to_le_bytes(payload.len() as u32) + payload
}

/// The declared payload length of an encoded envelope (valid only when the
/// fixed header is present).
pub open spec fn spec_payload_len(data: Seq<u8>) -> int {
    spec_u32_from_le_bytes(data.subrange(18, 22)) as int
}

/// An envelope decodes successfully: the fixed header is present, the
/// version is the supported one, and the declared payload fits.
pub open spec fn spec_decode_ok(data: Seq<u8>) -> bool {
    &&& data.len() >= HEADER_LENGTH
    &&& data[0] == MESSAGE_VERSION
    &&& data.len() >= HEADER_LENGTH + spec_payload_len(data)
}

/// The envelope an encoded message decodes to, when `spec_decode_ok` holds.
pub open spec fn spec_decoded_message(data: Seq<u8>) -> DecodedMessageV {
    DecodedMessageV {
        version: data[0],
        command: data[1],
        nonce: spec_u64_from_le_bytes(data.subrange(2, 10)),
        timestamp: i64_of_u64_bits(spec_u64_from_le_bytes(data.subrange(10, 18))),
        payload: data.subrange(22, 22 + spec_payload_len(data)),
    }
}

/// The first failing check of `decode_message`, if any: a short header or a
/// short payload is a malformed message, an unknown version is rejected
/// before anything else is read.
pub open spec fn spec_decode_error(data: Seq<u8>) -> Option<ErrorCode> {
    if data.len() < HEADER_LENGTH {
        Some(ErrorCode::InvalidLzMessage)
    } else if data[0] != MESSAGE_VERSION {
        Some(ErrorCode::UnsupportedVersion)
    } else if data.len() < HEADER_LENGTH + spec_payload_len(data) {
        Some(ErrorCode::InvalidLzMessage)
    } else {
        None
    }
}

/// Message codec for the cross-chain wire envelope.
pub struct MessageCodec;

impl MessageCodec {
    /// Encode a cross-chain message envelope.
    pub fn encode_message(command: u8, nonce: u64, timestamp: i64, payload: &[u8]) -> (r: Result<
        Vec<u8>,
        ErrorCode,
    >)
        requires
            payload@.len() <= u32::MAX,
        ensures
            r is Ok,
            r.unwrap()@ == spec_encode_message(command, nonce, timestamp, payload@),
    {
        let ghost goal = spec_encode_message(command, nonce, timestamp, payload@);
        let mut encoded: Vec<u8> = Vec::new();
        encoded.push(MESSAGE_VERSION);
        encoded.push(command);
        let mut nonce_bytes = u64_to_le_bytes(nonce);
        encoded.append(&mut nonce_bytes);
        let mut ts_bytes = u64_to_le_bytes(i64_to_bits(timestamp));
        encoded.append(&mut ts_bytes);
        let mut len_bytes = u32_to_le_bytes(payload.len() as u32);
        encoded.append(&mut len_bytes);
        let mut payload_copy = bytes_range(payload, 0, payload.len());
        encoded.append(&mut payload_copy);
        proof {
            assert(payload@.subrange(0, payload@.len() as int) =~= payload@);
            assert(encoded@ =~= goal);
        }
        Ok(encoded)
    }

    /// Decode a cross-chain message envelope. Fails closed: nothing of the
    /// message is interpreted unless the whole envelope is well formed.
    pub fn decode_message(data: &[u8]) -> (r: Result<DecodedMessage, ErrorCode>)
        ensures
            match r {
                Ok(m) => spec_decode_error(data@) is None && m@ == spec_decoded_message(data@),
                Err(e) => spec_decode_error(data@) == Some(e),
            },
            r is Ok <==> spec_decode_ok(data@),
    {
        if data.len() < HEADER_LENGTH {
            return Err(ErrorCode::InvalidLzMessage);
        }
        let version = data[0];
        if version != MESSAGE_VERSION {
            return Err(ErrorCode::UnsupportedVersion);
        }
        let command = data[1];
        let nonce = u64_from_le_bytes(slice_subrange(data, 2, 10));
        let timestamp = bits_to_i64(u64_from_le_bytes(slice_subrange(data, 10, 18)));
        let payload_length = u32_from_le_bytes(slice_subrange(data, 18, 22)) as usize;

        if data.len() - HEADER_LENGTH < payload_length {
            return Err(ErrorCode::InvalidLzMessage);
        }
        let payload = bytes_range(data, 22, 22 + payload_length);

        Ok(DecodedMessage { version, command, nonce, timestamp, payload })
    }

    /// Determine the message type of encoded data: a leading compose marker
    /// byte on a message of at least two bytes marks a compose message.
    pub fn get_message_type(data: &[u8]) -> (r: Result<u8, ErrorCode>)
        ensures
            data@.len() == 0 ==> r == Err::<u8, ErrorCode>(ErrorCode::InvalidLzMessage),
            data@.len() >= 2 && data@[0] == 0xff ==> r == Ok::<u8, ErrorCode>(MSG_TYPE_COMPOSE),
            data@.len() == 1 || (data@.len() >= 2 && data@[0] != 0xff) ==> r == Ok::<
                u8,
                ErrorCode,
            >(MSG_TYPE_REGULAR),
    {
        if data.len() == 0 {
            return Err(ErrorCode::InvalidLzMessage);
        }
        if data.len() >= 2 && data[0] == 0xff {
            return Ok(MSG_TYPE_COMPOSE);
        }
        Ok(MSG_TYPE_REGULAR)
    }

    /// A command tag is one the dispatcher implements.
    pub fn validate_command(command: u8) -> (r: bool)
        ensures
            r == spec_command_supported(command),
    {
        command == COMMAND_UPDATE_COLLECTION_METADATA || command == COMMAND_BATCH_UPDATE_CNFTS
            || command == COMMAND_TRANSFER_AUTHORITY || command == COMMAND_EMERGENCY_PAUSE
            || command == COMMAND_EMERGENCY_UNPAUSE
    }
}

/// The command tags the dispatcher implements.
pub open spec fn spec_command_supported(command: u8) -> bool {
    command == COMMAND_UPDATE_COLLECTION_METADATA || command == COMMAND_BATCH_UPDATE_CNFTS
        || command == COMMAND_TRANSFER_AUTHORITY || command == COMMAND_EMERGENCY_PAUSE
        || command == COMMAND_EMERGENCY_UNPAUSE
}

/// Round trip: a decoded envelope gives back exactly the command, nonce,
/// timestamp and payload it was encoded from.
pub proof fn lemma_encode_decode_roundtrip(command: u8, nonce: u64, timestamp: i64, payload: Seq<u8>)
    requires
        payload.len() <= u32::MAX,
    ensures
        spec_decode_ok(spec_encode_message(command, nonce, timestamp, payload)),
        spec_decoded_message(spec_encode_message(command, nonce, timestamp, payload))
            == (DecodedMessageV {
            version: MESSAGE_VERSION,
            command: command,
            nonce: nonce,
            timestamp: timestamp,
            payload: payload,
        }),
{
    lemma_auto_spec_u64_to_from_le_bytes();
    lemma_auto_spec_u32_to_from_le_bytes();
    let data = spec_encode_message(command, nonce, timestamp, payload);
    assert(data.len() == 22 + payload.len());
    assert(data.subrange(2, 10) =~= spec_u64_to_le_bytes(nonce));
    assert(data.subrange(10, 18) =~= spec_u64_to_le_bytes(u64_bits_of_i64(timestamp)));
    assert(data.subrange(18, 22) =~= spec_u32_to_le_bytes(payload.len() as u32));
    assert(spec_payload_len(data) == payload.len());
    assert(data.subrange(22, 22 + payload.len() as int) =~= payload);
    lemma_i64_bits_roundtrip(timestamp);
}

/// The wire form of a collection-metadata update payload: three
/// length-prefixed byte strings (uri, name, symbol), each prefix 4 bytes LE.
pub open spec fn spec_encode_metadata_payload(
    uri: Seq<char>,
    name: Seq<char>,
    symbol: Seq<char>,
) -> Seq<u8> {
    let u = encode_utf8(uri);
    let n = encode_utf8(name);
    let s = encode_utf8(symbol);
    spec_u32_to_le_bytes(u.len() as u32) + u + spec_u32_to_le_bytes(n.len() as u32) + n
        + spec_u32_to_le_bytes(s.len() as u32) + s
}

/// The three byte segments of a metadata payload, when every length prefix
/// is present and its segment fits.
pub open spec fn spec_meta_segments(p: Seq<u8>) -> Option<(Seq<u8>, Seq<u8>, Seq<u8>)> {
    if p.len() < 4 {
        None
    } else {
        let ulen = spec_u32_from_le_bytes(p.subrange(0, 4)) as int;
        if p.len() < 4 + ulen {
            None
        } else {
            let useg = p.subrange(4, 4 + ulen);
            let off1 = 4 + ulen;
            if p.len() < off1 + 4 {
                None
            } else {
                let nlen = spec_u32_from_le_bytes(p.subrange(off1, off1 + 4)) as int;
                if p.len() < off1 + 4 + nlen {
                    None
                } else {
                    let nseg = p.subrange(off1 + 4, off1 + 4 + nlen);
                    let off2 = off1 + 4 + nlen;
                    if p.len() < off2 + 4 {
                        None
                    } else {
                        let slen = spec_u32_from_le_bytes(p.subrange(off2, off2 + 4)) as int;
                        if p.len() < off2 + 4 + slen {
                            None
                        } else {
                            Some((useg, nseg, p.subrange(off2 + 4, off2 + 4 + slen)))
                        }
                    }
                }
            }
        }
    }
}

/// A metadata payload decodes successfully: well-formed segments, each of
/// them valid UTF-8.
pub open spec fn spec_meta_payload_ok(p: Seq<u8>) -> bool {
    match spec_meta_segments(p) {
        Some((u, n, s)) => valid_utf8(u) && valid_utf8(n) && valid_utf8(s),
        None => false,
    }
}

impl MessageCodec {
    /// Encode a collection-metadata update payload.
    pub fn encode_update_metadata_payload(new_uri: &str, new_name: &str, new_symbol: &str) -> (r:
        Result<Vec<u8>, ErrorCode>)
        requires
            encode_utf8(new_uri@).len() <= u32::MAX,
            encode_utf8(new_name@).len() <= u32::MAX,
            encode_utf8(new_symbol@).len() <= u32::MAX,
        ensures
            r is Ok,
            r.unwrap()@ == spec_encode_metadata_payload(new_uri@, new_name@, new_symbol@),
    {
        let ghost goal = spec_encode_metadata_payload(new_uri@, new_name@, new_symbol@);
        let mut payload: Vec<u8> = Vec::new();

        let mut uri_bytes = crate::strfmt::str_to_bytes(new_uri);
        let mut len_bytes = u32_to_le_bytes(uri_bytes.len() as u32);
        payload.append(&mut len_bytes);
        payload.append(&mut uri_bytes);

        let mut name_bytes = crate::strfmt::str_to_bytes(new_name);
        let mut len_bytes = u32_to_le_bytes(name_bytes.len() as u32);
        payload.append(&mut len_bytes);
        payload.append(&mut name_bytes);

        let mut symbol_bytes = crate::strfmt::str_to_bytes(new_symbol);
        let mut len_bytes = u32_to_le_bytes(symbol_bytes.len() as u32);
        payload.append(&mut len_bytes);
        payload.append(&mut symbol_bytes);

        proof {
            assert(payload@ =~= goal);
        }
        Ok(payload)
    }

    /// Decode a collection-metadata update payload. Fails closed on any
    /// truncation or invalid UTF-8, before any field is applied.
    pub fn decode_update_metadata_payload(payload: &[u8]) -> (r: Result<
        UpdateMetadataPayload,
        ErrorCode,
    >)
        ensures
            r is Ok <==> spec_meta_payload_ok(payload@),
            r is Err ==> r == Err::<UpdateMetadataPayload, ErrorCode>(ErrorCode::InvalidLzMessage),
            r matches Ok(m) ==> {
                let (u, n, s) = spec_meta_segments(payload@).unwrap();
                encode_utf8(m@.uri) == u && encode_utf8(m@.name) == n && encode_utf8(m@.symbol)
                    == s
            },
    {
        let ghost p = payload@;
        if payload.len() < 4 {
            return Err(ErrorCode::InvalidLzMessage);
        }
        let uri_len = u32_from_le_bytes(slice_subrange(payload, 0, 4)) as usize;
        let mut offset: usize = 4;
        if payload.len() - offset < uri_len {
            return Err(ErrorCode::InvalidLzMessage);
        }
        let useg = bytes_range(payload, offset, offset + uri_len);
        let uri = match string_from_utf8(useg) {
            Some(s) => s,
            None => {
                return Err(ErrorCode::InvalidLzMessage);
            },
        };
        offset = offset + uri_len;

        if payload.len() - offset < 4 {
            return Err(ErrorCode::InvalidLzMessage);
        }
        let name_len = u32_from_le_bytes(slice_subrange(payload, offset, offset + 4)) as usize;
        proof {
            assert(p.subrange(offset as int, offset as int + 4) =~= p.subrange(
                4 + uri_len as int,
                4 + uri_len as int + 4,
            ));
        }
        offset = offset + 4;
        if payload.len() - offset < name_len {
            return Err(ErrorCode::InvalidLzMessage);
        }
        let nseg = bytes_range(payload, offset, offset + name_len);
        let name = match string_from_utf8(nseg) {
            Some(s) => s,
            None => {
                return Err(ErrorCode::InvalidLzMessage);
            },
        };
        offset = offset + name_len;

        if payload.len() - offset < 4 {
            return Err(ErrorCode::InvalidLzMessage);
        }
        let symbol_len = u32_from_le_bytes(slice_subrange(payload, offset, offset + 4)) as usize;
        proof {
            let off2 = 4 + uri_len as int + 4 + name_len as int;
            assert(p.subrange(offset as int, offset as int + 4) =~= p.subrange(off2, off2 + 4));
        }
        offset = offset + 4;
        if payload.len() - offset < symbol_len {
            return Err(ErrorCode::InvalidLzMessage);
        }
        let sseg = bytes_range(payload, offset, offset + symbol_len);
        let symbol = match string_from_utf8(sseg) {
            Some(s) => s,
            None => {
                return Err(ErrorCode::InvalidLzMessage);
            },
        };

        Ok(UpdateMetadataPayload { uri, name, symbol })
    }
}

/// Round trip: a decoded metadata payload gives back exactly the strings it
/// was encoded from.
pub proof fn lemma_metadata_payload_roundtrip(uri: Seq<char>, name: Seq<char>, symbol: Seq<char>)
    requires
        encode_utf8(uri).len() <= u32::MAX,
        encode_utf8(name).len() <= u32::MAX,
        encode_utf8(symbol).len() <= u32::MAX,
    ensures
        spec_meta_payload_ok(spec_encode_metadata_payload(uri, name, symbol)),
        ({
            let (u, n, s) = spec_meta_segments(
                spec_encode_metadata_payload(uri, name, symbol),
            ).unwrap();
            decode_utf8(u) == uri && decode_utf8(n) == name && decode_utf8(s) == symbol
        }),
{
    broadcast use vstd::utf8::encode_utf8_valid_utf8, vstd::utf8::encode_utf8_decode_utf8;

    lemma_auto_spec_u32_to_from_le_bytes();
    let u = encode_utf8(uri);
    let n = encode_utf8(name);
    let s = encode_utf8(symbol);
    let p = spec_encode_metadata_payload(uri, name, symbol);
    assert(p.len() == 4 + u.len() + 4 + n.len() + 4 + s.len());
    assert(p.subrange(0, 4) =~= spec_u32_to_le_bytes(u.len() as u32));
    assert(p.subrange(4, 4 + u.len() as int) =~= u);
    let off1 = 4 + u.len() as int;
    assert(p.subrange(off1, off1 + 4) =~= spec_u32_to_le_bytes(n.len() as u32));
    assert(p.subrange(off1 + 4, off1 + 4 + n.len() as int) =~= n);
    let off2 = off1 + 4 + n.len() as int;
    assert(p.subrange(off2, off2 + 4) =~= spec_u32_to_le_bytes(s.len() as u32));
    assert(p.subrange(off2 + 4, off2 + 4 + s.len() as int) =~= s);
}

/// Message validation helpers.
pub struct MessageValidator;

impl MessageValidator {
    /// A message timestamp is within the drift tolerance of the current
    /// time.
    pub fn validate_timestamp(timestamp: i64, now: i64) -> (r: bool)
        ensures
            r == (-(crate::constants::MESSAGE_TIMEOUT_SECONDS as int) <= now - timestamp
                <= crate::constants::MESSAGE_TIMEOUT_SECONDS as int),
    {
        let diff: i128 = (now as i128) - (timestamp as i128);
        -3600 <= diff && diff <= 3600
    }

    /// A message nonce is strictly beyond the replay cursor.
    pub fn validate_nonce(current_nonce: u64, message_nonce: u64) -> (r: bool)
        ensures
            r == (message_nonce > current_nonce),
    {
        message_nonce > current_nonce
    }

    /// A message fits within the maximum accepted size.
    pub fn validate_message_size(data: &[u8]) -> (r: bool)
        ensures
            r == (data@.len() <= MAX_MESSAGE_SIZE),
    {
        data.len() <= MAX_MESSAGE_SIZE
    }
}

} // verus!
