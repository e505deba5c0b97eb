//! Reading a payload gives back what was written.

use crate::state::{CreatorView, DataView, MAX_WIRE_LEN};
use crate::wire::{
    create_payload, creator, creators, data, decode_create_payload, decode_update_payload, flag,
    optional_creators, optional_data, optional_flag, optional_key, take_creator, take_creators,
    take_data, take_flag, take_key, take_optional_creators, take_optional_data,
    take_optional_flag, take_optional_key, take_text, take_u16, take_u32, text, u16_le, u32_le,
    update_payload, UpdateFields,
};
use vstd::prelude::*;
use vstd::utf8::{encode_utf8, encode_utf8_decode_utf8, encode_utf8_valid_utf8};

verus! {

proof fn lemma_take_u16(x: u16, rest: Seq<u8>)
    ensures
        take_u16(u16_le(x) + rest) == Some((x, rest)),
{
    let b = u16_le(x) + rest;
    assert(b.skip(2) =~= rest);
}

proof fn lemma_take_u32(x: int, rest: Seq<u8>)
    requires
        0 <= x <= MAX_WIRE_LEN,
    ensures
        take_u32(u32_le(x) + rest) == Some((x, rest)),
{
    let b = u32_le(x) + rest;
    assert(b.skip(4) =~= rest);
}

proof fn lemma_take_flag(value: bool, rest: Seq<u8>)
    ensures
        take_flag(flag(value) + rest) == Some((value, rest)),
{
    let b = flag(value) + rest;
    assert(b.skip(1) =~= rest);
}

proof fn lemma_take_key(key: Seq<u8>, rest: Seq<u8>)
    requires
        key.len() == 32,
    ensures
        take_key(key + rest) == Some((key, rest)),
{
    let b = key + rest;
    assert(b.take(32) =~= key);
    assert(b.skip(32) =~= rest);
}

proof fn lemma_take_text(s: Seq<char>, rest: Seq<u8>)
    requires
        encode_utf8(s).len() <= MAX_WIRE_LEN,
    ensures
        take_text(text(s) + rest) == Some((s, rest)),
{
    let bytes = encode_utf8(s);
    let len = bytes.len() as int;
    let b = text(s) + rest;
    assert(b =~= u32_le(len) + (bytes + rest));
    lemma_take_u32(len, bytes + rest);
    assert((bytes + rest).take(len) =~= bytes);
    assert((bytes + rest).skip(len) =~= rest);
    encode_utf8_valid_utf8(s);
    encode_utf8_decode_utf8(s);
}

proof fn lemma_take_creator(c: CreatorView, rest: Seq<u8>)
    requires
        c.address.len() == 32,
    ensures
        take_creator(creator(c) + rest) == Some((c, rest)),
{
    let after_key = flag(c.verified) + (seq![c.share] + rest);
    assert(creator(c) + rest =~= c.address + after_key);
    lemma_take_key(c.address, after_key);
    lemma_take_flag(c.verified, seq![c.share] + rest);
    assert((seq![c.share] + rest).skip(1) =~= rest);
}

proof fn lemma_take_creators(list: Seq<CreatorView>, rest: Seq<u8>)
    requires
        forall|i: int| 0 <= i < list.len() ==> (#[trigger] list[i]).address.len() == 32,
    ensures
        take_creators(creators(list) + rest, list.len()) == Some((list, rest)),
    decreases list.len(),
{
    if list.len() == 0 {
        assert(creators(list) + rest =~= rest);
        assert(list =~= Seq::empty());
    } else {
        let first = list.first();
        let others = list.drop_first();
        let after_first = creators(others) + rest;
        assert(creators(list) + rest =~= creator(first) + after_first);
        lemma_take_creator(first, after_first);
        assert forall|i: int| 0 <= i < others.len() implies (#[trigger] others[i]).address.len()
            == 32 by {
            assert(others[i] == list[i + 1]);
        }
        lemma_take_creators(others, rest);
        assert(seq![first] + others =~= list);
    }
}

proof fn lemma_take_optional_creators(list: Option<Seq<CreatorView>>, rest: Seq<u8>)
    requires
        list matches Some(l) ==> l.len() <= MAX_WIRE_LEN && forall|i: int|
            0 <= i < l.len() ==> (#[trigger] l[i]).address.len() == 32,
    ensures
        take_optional_creators(optional_creators(list) + rest) == Some((list, rest)),
{
    let b = optional_creators(list) + rest;
    match list {
        None => {
            assert(b.skip(1) =~= rest);
        },
        Some(l) => {
            let after_len = creators(l) + rest;
            assert(b.skip(1) =~= u32_le(l.len() as int) + after_len);
            lemma_take_u32(l.len() as int, after_len);
            lemma_take_creators(l, rest);
        },
    }
}

proof fn lemma_take_data(d: DataView, rest: Seq<u8>)
    requires
        d.well_formed(),
        d.fits_wire(),
    ensures
        take_data(data(d) + rest) == Some((d, rest)),
{
    let after_fee = optional_creators(d.creators) + rest;
    let after_uri = u16_le(d.seller_fee_basis_points) + after_fee;
    let after_symbol = text(d.uri) + after_uri;
    let after_name = text(d.symbol) + after_symbol;
    assert(data(d) + rest =~= text(d.name) + after_name);
    lemma_take_text(d.name, after_name);
    lemma_take_text(d.symbol, after_symbol);
    lemma_take_text(d.uri, after_uri);
    lemma_take_u16(d.seller_fee_basis_points, after_fee);
    lemma_take_optional_creators(d.creators, rest);
}

proof fn lemma_take_optional_data(d: Option<DataView>, rest: Seq<u8>)
    requires
        d matches Some(v) ==> v.well_formed() && v.fits_wire(),
    ensures
        take_optional_data(optional_data(d) + rest) == Some((d, rest)),
{
    let b = optional_data(d) + rest;
    match d {
        None => {
            assert(b.skip(1) =~= rest);
        },
        Some(v) => {
            assert(b.skip(1) =~= data(v) + rest);
            lemma_take_data(v, rest);
        },
    }
}

proof fn lemma_take_optional_key(key: Option<Seq<u8>>, rest: Seq<u8>)
    requires
        key matches Some(k) ==> k.len() == 32,
    ensures
        take_optional_key(optional_key(key) + rest) == Some((key, rest)),
{
    let b = optional_key(key) + rest;
    match key {
        None => {
            assert(b.skip(1) =~= rest);
        },
        Some(k) => {
            assert(b.skip(1) =~= k + rest);
            lemma_take_key(k, rest);
        },
    }
}

proof fn lemma_take_optional_flag(value: Option<bool>, rest: Seq<u8>)
    ensures
        take_optional_flag(optional_flag(value) + rest) == Some((value, rest)),
{
    let b = optional_flag(value) + rest;
    match value {
        None => {
            assert(b.skip(1) =~= rest);
        },
        Some(v) => {
            assert(b.skip(1) =~= flag(v) + rest);
            lemma_take_flag(v, rest);
        },
    }
}

/// Reading the payload that creates a record gives back the display data
/// and `is_mutable` as they were written: the three strings, the fee, and
/// the creators, where an absent list reads as absent and a given list as
/// given, empty or not.
pub proof fn lemma_create_payload_round_trip(d: DataView, is_mutable: bool)
    requires
        d.well_formed(),
        d.fits_wire(),
    ensures
        decode_create_payload(create_payload(d, is_mutable)) == Some((d, is_mutable)),
{
    reveal(decode_create_payload);
    let b = create_payload(d, is_mutable);
    assert(b.skip(1) =~= data(d) + flag(is_mutable));
    lemma_take_data(d, flag(is_mutable));
    assert(flag(is_mutable) =~= flag(is_mutable) + Seq::<u8>::empty());
    lemma_take_flag(is_mutable, Seq::empty());
}

/// Reading the payload that updates a record gives back the three optional
/// fields as they were written: a field that was absent reads as absent, and
/// a field that was given reads as given, with its value.
pub proof fn lemma_update_payload_round_trip(
    d: Option<DataView>,
    update_authority: Option<Seq<u8>>,
    primary_sale_happened: Option<bool>,
)
    requires
        d matches Some(v) ==> v.well_formed() && v.fits_wire(),
        update_authority matches Some(k) ==> k.len() == 32,
    ensures
        decode_update_payload(update_payload(d, update_authority, primary_sale_happened)) == Some(
            UpdateFields { data: d, update_authority, primary_sale_happened },
        ),
{
    reveal(decode_update_payload);
    let b = update_payload(d, update_authority, primary_sale_happened);
    let after_key = optional_flag(primary_sale_happened);
    let after_data = optional_key(update_authority) + after_key;
    assert(b.skip(1) =~= optional_data(d) + after_data);
    lemma_take_optional_data(d, after_data);
    lemma_take_optional_key(update_authority, after_key);
    assert(after_key =~= after_key + Seq::<u8>::empty());
    lemma_take_optional_flag(primary_sale_happened, Seq::empty());
}

} // verus!
