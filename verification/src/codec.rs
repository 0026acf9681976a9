//! Byte layout of the opaque user-data block.
//!
//! The block has a fixed capacity of [`NETCODE_USER_DATA_BYTES`] bytes and
//! carries two variable-length byte strings.  Its layout is
//! `<username length> <lobby length> <username bytes> <lobby bytes>`:
//! one length header per field, each a little-endian unsigned integer of
//! [`HEADER_PART_BYTES`] bytes, followed by one [`MAX_DATA_PART_BYTES`]-byte
//! slot per field.  Field bytes sit left-aligned in their slot and every
//! unused byte of the block is zero.

use vstd::prelude::*;

verus! {

/// Capacity in bytes of the opaque user-data block.  The secure-channel
/// library that carries the block fixes this value; both sides of the
/// protocol derive every other size from it.
pub const NETCODE_USER_DATA_BYTES: usize = 256;

/// Number of variable-length fields packed into the block.
pub const DATA_PARTS: usize = 2;

/// Width in bytes of one length header.  A single header byte can hold
/// values up to 255, so dividing the capacity by 256 spreads the header
/// allotment proportionally and never makes the header wider than needed.
pub const HEADER_PART_BYTES: usize = NETCODE_USER_DATA_BYTES / 256;

/// Total bytes taken by the length headers at the front of the block.
pub const HEADER_BYTES: usize = HEADER_PART_BYTES * DATA_PARTS;

/// Greatest byte length allowed for each field: the capacity left after the
/// headers, split evenly between the fields (floor division).
pub const MAX_DATA_PART_BYTES: usize = (NETCODE_USER_DATA_BYTES - HEADER_BYTES) / DATA_PARTS;

/// The sizes derived from the capacity: one-byte headers, and field slots
/// that fill the block exactly.  Encoding and decoding both read the same
/// constants, so the two sides can never disagree on the layout.
pub proof fn lemma_capacity_derivation()
    ensures
        HEADER_PART_BYTES == 1,
        HEADER_BYTES == 2,
        MAX_DATA_PART_BYTES == 127,
        HEADER_BYTES + DATA_PARTS * MAX_DATA_PART_BYTES == NETCODE_USER_DATA_BYTES,
{
}

/// The user-data block that holds the two given byte strings, by index:
/// first the two length headers (each field is shorter than 256 bytes, so a
/// header is the length itself in one byte), then each field left-aligned in
/// its slot, with zeroes everywhere else.
pub open spec fn user_data_for(username: Seq<u8>, lobby: Seq<u8>) -> Seq<u8>
    recommends
        username.len() <= MAX_DATA_PART_BYTES,
        lobby.len() <= MAX_DATA_PART_BYTES,
{
    Seq::new(
        NETCODE_USER_DATA_BYTES as nat,
        |i: int|
            {
                let h = HEADER_BYTES as int;
                let d = MAX_DATA_PART_BYTES as int;
                if i < HEADER_PART_BYTES as int {
                    username.len() as u8
                } else if i < h {
                    lobby.len() as u8
                } else if i < h + username.len() {
                    username[i - h]
                } else if i < h + d {
                    0u8
                } else if i < h + d + lobby.len() {
                    lobby[i - h - d]
                } else {
                    0u8
                }
            },
    )
}

/// The two byte strings carried by the given user-data block, or `None` when
/// a length header claims more bytes than a field's slot can hold — reading
/// past the slot would take bytes of the other field or invent data, so such
/// a block is rejected as corrupted.
pub open spec fn parsed_user_data(buf: Seq<u8>) -> Option<(Seq<u8>, Seq<u8>)>
    recommends
        buf.len() == NETCODE_USER_DATA_BYTES,
{
    let h = HEADER_BYTES as int;
    let d = MAX_DATA_PART_BYTES as int;
    let username_len = buf[0] as int;
    let lobby_len = buf[HEADER_PART_BYTES as int] as int;
    if username_len <= d && lobby_len <= d {
        Some(
            (buf.subrange(h, h + username_len), buf.subrange(h + d, h + d + lobby_len)),
        )
    } else {
        None
    }
}

/// Round trip at the byte level: a block encoded from two fields that fit
/// their slots parses back to exactly those fields.
pub proof fn lemma_user_data_round_trip(username: Seq<u8>, lobby: Seq<u8>)
    requires
        username.len() <= MAX_DATA_PART_BYTES,
        lobby.len() <= MAX_DATA_PART_BYTES,
    ensures
        parsed_user_data(user_data_for(username, lobby)) == Some((username, lobby)),
{
    let buf = user_data_for(username, lobby);
    let h = HEADER_BYTES as int;
    let d = MAX_DATA_PART_BYTES as int;
    assert(buf.subrange(h, h + username.len()) =~= username);
    assert(buf.subrange(h + d, h + d + lobby.len()) =~= lobby);
}

/// Builds the user-data block that holds the two given byte strings.
#[verifier::loop_isolation(false)]
pub fn encode_user_data(username: &Vec<u8>, lobby: &Vec<u8>) -> (buf: Vec<u8>)
    requires
        username@.len() <= MAX_DATA_PART_BYTES,
        lobby@.len() <= MAX_DATA_PART_BYTES,
    ensures
        buf@ == user_data_for(username@, lobby@),
        buf@.len() == NETCODE_USER_DATA_BYTES,
{
    let ghost target = user_data_for(username@, lobby@);
    let mut buf: Vec<u8> = Vec::new();
    buf.push(username.len() as u8);
    buf.push(lobby.len() as u8);
    let mut i: usize = 0;
    while i < username.len()
        invariant
            i <= username@.len(),
            buf@.len() == HEADER_BYTES + i,
            forall|k: int| 0 <= k < buf@.len() ==> buf@[k] == target[k],
        decreases username@.len() - i,
    {
        buf.push(username[i]);
        i = i + 1;
    }
    while buf.len() < HEADER_BYTES + MAX_DATA_PART_BYTES
        invariant
            HEADER_BYTES + username@.len() <= buf@.len() <= HEADER_BYTES + MAX_DATA_PART_BYTES,
            forall|k: int| 0 <= k < buf@.len() ==> buf@[k] == target[k],
        decreases HEADER_BYTES + MAX_DATA_PART_BYTES - buf@.len(),
    {
        buf.push(0);
    }
    let mut j: usize = 0;
    while j < lobby.len()
        invariant
            j <= lobby@.len(),
            buf@.len() == HEADER_BYTES + MAX_DATA_PART_BYTES + j,
            forall|k: int| 0 <= k < buf@.len() ==> buf@[k] == target[k],
        decreases lobby@.len() - j,
    {
        buf.push(lobby[j]);
        j = j + 1;
    }
    while buf.len() < NETCODE_USER_DATA_BYTES
        invariant
            HEADER_BYTES + MAX_DATA_PART_BYTES + lobby@.len() <= buf@.len()
                <= NETCODE_USER_DATA_BYTES,
            forall|k: int| 0 <= k < buf@.len() ==> buf@[k] == target[k],
        decreases NETCODE_USER_DATA_BYTES - buf@.len(),
    {
        buf.push(0);
    }
    proof {
        assert(buf@ =~= target);
    }
    buf
}

/// Reads the two byte strings back out of a user-data block, rejecting a
/// block of the wrong size or one whose length headers overrun their slots.
#[verifier::loop_isolation(false)]
pub fn decode_user_data(buf: &Vec<u8>) -> (r: Option<(Vec<u8>, Vec<u8>)>)
    ensures
        r is Some <==> (buf@.len() == NETCODE_USER_DATA_BYTES && parsed_user_data(buf@) is Some),
        r matches Some(parts) ==> parsed_user_data(buf@) == Some((parts.0@, parts.1@)),
{
    if buf.len() != NETCODE_USER_DATA_BYTES {
        return None;
    }
    let username_len = buf[0] as usize;
    let lobby_len = buf[HEADER_PART_BYTES] as usize;
    if username_len > MAX_DATA_PART_BYTES || lobby_len > MAX_DATA_PART_BYTES {
        return None;
    }
    let mut username: Vec<u8> = Vec::new();
    let mut i: usize = 0;
    while i < username_len
        invariant
            i <= username_len,
            username@.len() == i,
            forall|k: int| 0 <= k < i ==> username@[k] == buf@[HEADER_BYTES + k],
        decreases username_len - i,
    {
        username.push(buf[HEADER_BYTES + i]);
        i = i + 1;
    }
    let mut lobby: Vec<u8> = Vec::new();
    let mut j: usize = 0;
    while j < lobby_len
        invariant
            j <= lobby_len,
            lobby@.len() == j,
            forall|k: int| 0 <= k < j ==> lobby@[k] == buf@[HEADER_BYTES + MAX_DATA_PART_BYTES + k],
        decreases lobby_len - j,
    {
        lobby.push(buf[HEADER_BYTES + MAX_DATA_PART_BYTES + j]);
        j = j + 1;
    }
    proof {
        let h = HEADER_BYTES as int;
        let d = MAX_DATA_PART_BYTES as int;
        assert(username@ =~= buf@.subrange(h, h + username_len as int));
        assert(lobby@ =~= buf@.subrange(h + d, h + d + lobby_len as int));
    }
    Some((username, lobby))
}

/// Zero fill: within each field's slot every byte past the field's content
/// is zero, as is the trailing part of the block after the second slot.
pub proof fn lemma_zero_fill(username: Seq<u8>, lobby: Seq<u8>, i: int)
    requires
        username.len() <= MAX_DATA_PART_BYTES,
        lobby.len() <= MAX_DATA_PART_BYTES,
        HEADER_BYTES + username.len() <= i < HEADER_BYTES + MAX_DATA_PART_BYTES || HEADER_BYTES
            + MAX_DATA_PART_BYTES + lobby.len() <= i < NETCODE_USER_DATA_BYTES,
    ensures
        user_data_for(username, lobby)[i] == 0,
{
}

} // verus!
