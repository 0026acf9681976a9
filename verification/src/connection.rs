//! The connection request and its embedding into the user-data block.
//!
//! [`ConnectionData`] pairs a username with a lobby name.  Construction
//! through [`ConnectionData::try_new`] rejects a field whose UTF-8 byte
//! length exceeds its slot; a request built that way encodes into a block of
//! exactly [`NETCODE_USER_DATA_BYTES`] bytes, and decoding such a block
//! recovers the original strings — see [`lemma_connection_round_trip`].

use vstd::prelude::*;
use vstd::slice::slice_to_vec;
use vstd::utf8::decode_utf8;
use vstd::utf8::encode_utf8;
use vstd::utf8::encode_utf8_decode_utf8;
use vstd::utf8::encode_utf8_valid_utf8;
use vstd::utf8::valid_utf8;

use crate::codec::decode_user_data;
use crate::codec::encode_user_data;
use crate::codec::lemma_user_data_round_trip;
use crate::codec::parsed_user_data;
use crate::codec::user_data_for;
use crate::codec::MAX_DATA_PART_BYTES;
use crate::codec::NETCODE_USER_DATA_BYTES;

verus! {

/// One player's intent to join a lobby: a username and the name of the
/// lobby, both UTF-8 text whose *byte* length fits the per-field slot of
/// the user-data block.
#[derive(Debug, Clone, PartialEq, Eq, Hash)]
pub struct ConnectionData {
    pub username: String,
    pub lobby: String,
}

/// Why a user-data block was rejected on decode.  Such a block was not
/// produced by [`ConnectionData::to_netcode_user_data`]: either a bug or
/// tampering that slipped past the token layer's authentication.
#[derive(Debug, Clone, Copy, PartialEq, Eq)]
pub enum CorruptionError {
    /// The block does not have exactly the fixed capacity.
    WrongBufferLength,
    /// A length header claims more bytes than a field's slot holds.
    LengthOutOfRange,
    /// A field's bytes are not valid UTF-8.
    InvalidUtf8,
}

/// Relies on `String::from_utf8`: it succeeds exactly when the input is
/// valid UTF-8, and the returned string holds exactly the input bytes.
#[verifier::external_body]
fn string_from_utf8(bytes: Vec<u8>) -> (r: Option<String>)
    ensures
        r is Some <==> valid_utf8(bytes@),
        r matches Some(s) ==> encode_utf8(s@) == bytes@,
{
    String::from_utf8(bytes).ok()
}

impl ConnectionData {
    /// Both fields fit their slots; established by `try_new` and required
    /// for encoding.
    pub open spec fn is_valid(self) -> bool {
        encode_utf8(self.username@).len() <= MAX_DATA_PART_BYTES && encode_utf8(
            self.lobby@,
        ).len() <= MAX_DATA_PART_BYTES
    }

    /// Whether one field's UTF-8 byte length — not its character count —
    /// fits the field slot of the user-data block.
    pub fn is_valid_data_part(data: &str) -> (valid: bool)
        ensures
            valid <==> encode_utf8(data@).len() <= MAX_DATA_PART_BYTES,
    {
        data.as_bytes().len() <= MAX_DATA_PART_BYTES
    }

    /// Validates both fields and builds the request, holding the text
    /// verbatim: no trimming, no normalization.  Returns `None` exactly
    /// when at least one field's UTF-8 byte length exceeds its slot — a
    /// routine rejection, such as a name that is too long.
    pub fn try_new(username: &str, lobby: &str) -> (r: Option<Self>)
        ensures
            r is Some <==> (encode_utf8(username@).len() <= MAX_DATA_PART_BYTES && encode_utf8(
                lobby@,
            ).len() <= MAX_DATA_PART_BYTES),
            r matches Some(c) ==> c.username@ == username@ && c.lobby@ == lobby@ && c.is_valid(),
    {
        if !Self::is_valid_data_part(username) || !Self::is_valid_data_part(lobby) {
            return None;
        }
        Some(ConnectionData { username: username.to_owned(), lobby: lobby.to_owned() })
    }

    /// Encodes the request into a fresh user-data block of exactly
    /// [`NETCODE_USER_DATA_BYTES`] bytes, laid out as [`user_data_for`]
    /// describes.  Total over every valid request.
    pub fn to_netcode_user_data(&self) -> (buf: Vec<u8>)
        requires
            self.is_valid(),
        ensures
            buf@ == user_data_for(encode_utf8(self.username@), encode_utf8(self.lobby@)),
            buf@.len() == NETCODE_USER_DATA_BYTES,
    {
        let username_bytes = slice_to_vec(self.username.as_str().as_bytes());
        let lobby_bytes = slice_to_vec(self.lobby.as_str().as_bytes());
        encode_user_data(&username_bytes, &lobby_bytes)
    }

    /// Decodes a user-data block back into the request it carries.  The
    /// block is guarded before any slicing: a block of the wrong size, one
    /// whose length headers overrun their slots, and one whose field bytes
    /// are not UTF-8 are each rejected with the matching error rather than
    /// read out of bounds.
    pub fn from_user_data(user_data: &Vec<u8>) -> (r: Result<Self, CorruptionError>)
        ensures
            r matches Ok(c) ==> parsed_user_data(user_data@) matches Some(parts)
                && c.username@ == decode_utf8(parts.0) && c.lobby@ == decode_utf8(parts.1)
                && encode_utf8(c.username@) == parts.0 && encode_utf8(c.lobby@) == parts.1
                && c.is_valid(),
            r == Err::<Self, _>(CorruptionError::WrongBufferLength) <==> user_data@.len()
                != NETCODE_USER_DATA_BYTES,
            r == Err::<Self, _>(CorruptionError::LengthOutOfRange) <==> (user_data@.len()
                == NETCODE_USER_DATA_BYTES && parsed_user_data(user_data@) is None),
            r == Err::<Self, _>(CorruptionError::InvalidUtf8) <==> (user_data@.len()
                == NETCODE_USER_DATA_BYTES && (parsed_user_data(user_data@) matches Some(parts)
                && !(valid_utf8(parts.0) && valid_utf8(parts.1)))),
    {
        if user_data.len() != NETCODE_USER_DATA_BYTES {
            return Err(CorruptionError::WrongBufferLength);
        }
        let (username_bytes, lobby_bytes) = match decode_user_data(user_data) {
            Some(parts) => parts,
            None => {
                return Err(CorruptionError::LengthOutOfRange);
            },
        };
        let ghost ub = username_bytes@;
        let ghost lb = lobby_bytes@;
        let username = match string_from_utf8(username_bytes) {
            Some(username) => username,
            None => {
                return Err(CorruptionError::InvalidUtf8);
            },
        };
        let lobby = match string_from_utf8(lobby_bytes) {
            Some(lobby) => lobby,
            None => {
                return Err(CorruptionError::InvalidUtf8);
            },
        };
        proof {
            encode_utf8_decode_utf8(username@);
            encode_utf8_decode_utf8(lobby@);
        }
        Ok(ConnectionData { username, lobby })
    }
}

/// Round trip: for any two fields that fit their slots, the encoded block
/// parses back to exactly those fields' bytes, the bytes are valid UTF-8,
/// and decoding them recovers the original text.  Together with the
/// contracts of [`ConnectionData::to_netcode_user_data`] and
/// [`ConnectionData::from_user_data`], this says that every request built
/// by [`ConnectionData::try_new`] survives encode followed by decode
/// unchanged, multi-byte characters included.
pub proof fn lemma_connection_round_trip(username: Seq<char>, lobby: Seq<char>)
    requires
        encode_utf8(username).len() <= MAX_DATA_PART_BYTES,
        encode_utf8(lobby).len() <= MAX_DATA_PART_BYTES,
    ensures
        parsed_user_data(user_data_for(encode_utf8(username), encode_utf8(lobby))) == Some(
            (encode_utf8(username), encode_utf8(lobby)),
        ),
        valid_utf8(encode_utf8(username)) && valid_utf8(encode_utf8(lobby)),
        decode_utf8(encode_utf8(username)) == username,
        decode_utf8(encode_utf8(lobby)) == lobby,
{
    lemma_user_data_round_trip(encode_utf8(username), encode_utf8(lobby));
    encode_utf8_valid_utf8(username);
    encode_utf8_valid_utf8(lobby);
    encode_utf8_decode_utf8(username);
    encode_utf8_decode_utf8(lobby);
}

} // verus!
