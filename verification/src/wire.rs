//! The byte layout of the two payloads that the token metadata program reads.
//!
//! A payload starts with one byte that selects the operation. Integers are
//! little-endian. A string is the length of its UTF-8 form in four bytes, then
//! that form. A list is its length in four bytes, then its items. A boolean is
//! one byte, 0 or 1. An optional field is one byte, 0 where the field is
//! absent, or 1 followed by the field. An address is its thirty-two bytes.

use crate::state::{CreatorView, DataView};
use vstd::prelude::*;
use vstd::utf8::{decode_utf8, encode_utf8, valid_utf8};

verus! {

/// Selects the operation that creates a metadata record.
pub const CREATE_METADATA_ACCOUNT_TAG: u8 = 0;

/// Selects the operation that updates a metadata record.
pub const UPDATE_METADATA_ACCOUNT_TAG: u8 = 1;

/// Two bytes, low byte first.
pub open spec fn u16_le(x: u16) -> Seq<u8> {
    seq![(x % 256) as u8, (x / 256) as u8]
}

/// Four bytes, lowest byte first. Meant for `0 <= x < 2^32`.
pub open spec fn u32_le(x: int) -> Seq<u8> {
    seq![
        (x % 256) as u8,
        ((x / 256) % 256) as u8,
        ((x / 65536) % 256) as u8,
        ((x / 16777216) % 256) as u8,
    ]
}

/// One byte: 1 for `true`, 0 for `false`.
pub open spec fn flag(b: bool) -> Seq<u8> {
    seq![if b { 1u8 } else { 0u8 }]
}

/// A string: the length of its UTF-8 form, then that form.
pub open spec fn text(s: Seq<char>) -> Seq<u8> {
    u32_le(encode_utf8(s).len() as int) + encode_utf8(s)
}

/// A creator: address, verified, share.
pub open spec fn creator(c: CreatorView) -> Seq<u8> {
    c.address + flag(c.verified) + seq![c.share]
}

/// The creators of a list one after the other, without a length.
pub open spec fn creators(list: Seq<CreatorView>) -> Seq<u8>
    decreases list.len(),
{
    if list.len() == 0 {
        Seq::empty()
    } else {
        creator(list.first()) + creators(list.drop_first())
    }
}

/// A list of creators that may be absent. An absent list is the byte 0; a
/// given list, even an empty one, is the byte 1, its length and its items.
pub open spec fn optional_creators(list: Option<Seq<CreatorView>>) -> Seq<u8> {
    match list {
        None => seq![0u8],
        Some(list) => seq![1u8] + u32_le(list.len() as int) + creators(list),
    }
}

/// Display data: name, symbol, uri, fee, creators.
pub open spec fn data(d: DataView) -> Seq<u8> {
    text(d.name) + text(d.symbol) + text(d.uri) + u16_le(d.seller_fee_basis_points)
        + optional_creators(d.creators)
}

/// Display data that may be absent.
pub open spec fn optional_data(d: Option<DataView>) -> Seq<u8> {
    match d {
        None => seq![0u8],
        Some(d) => seq![1u8] + data(d),
    }
}

/// An address that may be absent.
pub open spec fn optional_key(key: Option<Seq<u8>>) -> Seq<u8> {
    match key {
        None => seq![0u8],
        Some(key) => seq![1u8] + key,
    }
}

/// A boolean that may be absent.
pub open spec fn optional_flag(b: Option<bool>) -> Seq<u8> {
    match b {
        None => seq![0u8],
        Some(b) => seq![1u8] + flag(b),
    }
}

/// The payload that creates a metadata record: the tag, the display data,
/// and whether the record may be changed later.
pub open spec fn create_payload(d: DataView, is_mutable: bool) -> Seq<u8> {
    seq![CREATE_METADATA_ACCOUNT_TAG] + data(d) + flag(is_mutable)
}

/// The payload that updates a metadata record: the tag, then the three
/// optional fields in the order in which the program reads them, which is
/// data, update authority, primary sale.
pub open spec fn update_payload(
    d: Option<DataView>,
    update_authority: Option<Seq<u8>>,
    primary_sale_happened: Option<bool>,
) -> Seq<u8> {
    seq![UPDATE_METADATA_ACCOUNT_TAG] + optional_data(d) + optional_key(update_authority)
        + optional_flag(primary_sale_happened)
}

/// Reads two bytes as an integer, low byte first.
pub open spec fn take_u16(b: Seq<u8>) -> Option<(u16, Seq<u8>)> {
    if b.len() < 2 {
        None
    } else {
        Some(((b[0] as int + 256 * (b[1] as int)) as u16, b.skip(2)))
    }
}

/// Reads four bytes as an integer, lowest byte first.
pub open spec fn take_u32(b: Seq<u8>) -> Option<(int, Seq<u8>)> {
    if b.len() < 4 {
        None
    } else {
        Some(
            (
                b[0] as int + 256 * (b[1] as int) + 65536 * (b[2] as int) + 16777216 * (
                b[3] as int),
                b.skip(4),
            ),
        )
    }
}

/// Reads a boolean. A byte other than 0 and 1 is refused.
pub open spec fn take_flag(b: Seq<u8>) -> Option<(bool, Seq<u8>)> {
    if b.len() < 1 || b[0] > 1 {
        None
    } else {
        Some((b[0] == 1, b.skip(1)))
    }
}

/// Reads an address.
pub open spec fn take_key(b: Seq<u8>) -> Option<(Seq<u8>, Seq<u8>)> {
    if b.len() < 32 {
        None
    } else {
        Some((b.take(32), b.skip(32)))
    }
}

/// Reads a string. Bytes that are not UTF-8 are refused.
pub open spec fn take_text(b: Seq<u8>) -> Option<(Seq<char>, Seq<u8>)> {
    match take_u32(b) {
        Some((len, rest)) => if rest.len() < len || !valid_utf8(rest.take(len)) {
            None
        } else {
            Some((decode_utf8(rest.take(len)), rest.skip(len)))
        },
        None => None,
    }
}

/// Reads a creator.
pub open spec fn take_creator(b: Seq<u8>) -> Option<(CreatorView, Seq<u8>)> {
    match take_key(b) {
        Some((address, rest)) => match take_flag(rest) {
            Some((verified, rest)) => if rest.len() < 1 {
                None
            } else {
                Some((CreatorView { address, verified, share: rest[0] }, rest.skip(1)))
            },
            None => None,
        },
        None => None,
    }
}

/// Reads `count` creators.
pub open spec fn take_creators(b: Seq<u8>, count: nat) -> Option<(Seq<CreatorView>, Seq<u8>)>
    decreases count,
{
    if count == 0 {
        Some((Seq::empty(), b))
    } else {
        match take_creator(b) {
            Some((first, rest)) => match take_creators(rest, (count - 1) as nat) {
                Some((others, rest)) => Some((seq![first] + others, rest)),
                None => None,
            },
            None => None,
        }
    }
}

/// Reads a list of creators that may be absent.
pub open spec fn take_optional_creators(b: Seq<u8>) -> Option<
    (Option<Seq<CreatorView>>, Seq<u8>),
> {
    if b.len() < 1 || b[0] > 1 {
        None
    } else if b[0] == 0 {
        Some((None, b.skip(1)))
    } else {
        match take_u32(b.skip(1)) {
            Some((count, rest)) => match take_creators(rest, count as nat) {
                Some((list, rest)) => Some((Some(list), rest)),
                None => None,
            },
            None => None,
        }
    }
}

/// Reads display data.
pub open spec fn take_data(b: Seq<u8>) -> Option<(DataView, Seq<u8>)> {
    match take_text(b) {
        Some((name, rest)) => match take_text(rest) {
            Some((symbol, rest)) => match take_text(rest) {
                Some((uri, rest)) => match take_u16(rest) {
                    Some((seller_fee_basis_points, rest)) => match take_optional_creators(rest) {
                        Some((creators, rest)) => Some(
                            (
                                DataView { name, symbol, uri, seller_fee_basis_points, creators },
                                rest,
                            ),
                        ),
                        None => None,
                    },
                    None => None,
                },
                None => None,
            },
            None => None,
        },
        None => None,
    }
}

/// Reads display data that may be absent.
pub open spec fn take_optional_data(b: Seq<u8>) -> Option<(Option<DataView>, Seq<u8>)> {
    if b.len() < 1 || b[0] > 1 {
        None
    } else if b[0] == 0 {
        Some((None, b.skip(1)))
    } else {
        match take_data(b.skip(1)) {
            Some((d, rest)) => Some((Some(d), rest)),
            None => None,
        }
    }
}

/// Reads an address that may be absent.
pub open spec fn take_optional_key(b: Seq<u8>) -> Option<(Option<Seq<u8>>, Seq<u8>)> {
    if b.len() < 1 || b[0] > 1 {
        None
    } else if b[0] == 0 {
        Some((None, b.skip(1)))
    } else {
        match take_key(b.skip(1)) {
            Some((key, rest)) => Some((Some(key), rest)),
            None => None,
        }
    }
}

/// Reads a boolean that may be absent.
pub open spec fn take_optional_flag(b: Seq<u8>) -> Option<(Option<bool>, Seq<u8>)> {
    if b.len() < 1 || b[0] > 1 {
        None
    } else if b[0] == 0 {
        Some((None, b.skip(1)))
    } else {
        match take_flag(b.skip(1)) {
            Some((value, rest)) => Some((Some(value), rest)),
            None => None,
        }
    }
}

/// What the metadata program reads out of a payload that creates a record:
/// the display data and whether the record may be changed later. `None`
/// where the bytes are no such payload, or where bytes are left over.
#[verifier::opaque]
pub open spec fn decode_create_payload(b: Seq<u8>) -> Option<(DataView, bool)> {
    if b.len() < 1 || b[0] != CREATE_METADATA_ACCOUNT_TAG {
        None
    } else {
        match take_data(b.skip(1)) {
            Some((d, rest)) => match take_flag(rest) {
                Some((is_mutable, rest)) => if rest.len() == 0 {
                    Some((d, is_mutable))
                } else {
                    None
                },
                None => None,
            },
            None => None,
        }
    }
}

/// The fields of a payload that updates a record.
pub struct UpdateFields {
    pub data: Option<DataView>,
    pub update_authority: Option<Seq<u8>>,
    pub primary_sale_happened: Option<bool>,
}

/// What the metadata program reads out of a payload that updates a record.
/// `None` where the bytes are no such payload, or where bytes are left over.
#[verifier::opaque]
pub open spec fn decode_update_payload(b: Seq<u8>) -> Option<UpdateFields> {
    if b.len() < 1 || b[0] != UPDATE_METADATA_ACCOUNT_TAG {
        None
    } else {
        match take_optional_data(b.skip(1)) {
            Some((data, rest)) => match take_optional_key(rest) {
                Some((update_authority, rest)) => match take_optional_flag(rest) {
                    Some((primary_sale_happened, rest)) => if rest.len() == 0 {
                        Some(UpdateFields { data, update_authority, primary_sale_happened })
                    } else {
                        None
                    },
                    None => None,
                },
                None => None,
            },
            None => None,
        }
    }
}

} // verus!
