//! Byte-exact binary payloads of the program's create, buy and sell calls.
//!
//! Each payload opens with a fixed 8-byte discriminator naming the
//! operation, followed by little-endian integers and, for a creation,
//! 32-bit length-prefixed text fields and the creator address. The layout
//! is part of the on-chain program's ABI and must be reproduced verbatim;
//! the parse functions invert it and the round-trip lemmas prove that every
//! encoded field is recovered exactly.

use vstd::prelude::*;
use vstd::bytes::lemma_auto_spec_u32_to_from_le_bytes;
use vstd::bytes::lemma_auto_spec_u64_to_from_le_bytes;
use vstd::bytes::spec_u32_from_le_bytes;
use vstd::bytes::spec_u32_to_le_bytes;
use vstd::bytes::spec_u64_from_le_bytes;
use vstd::bytes::spec_u64_to_le_bytes;
use vstd::bytes::u32_from_le_bytes;
use vstd::bytes::u32_to_le_bytes;
use vstd::bytes::u64_from_le_bytes;
use vstd::bytes::u64_to_le_bytes;
use vstd::slice::slice_subrange;
use vstd::slice::slice_to_vec;
use crate::PumpError;
use crate::address::Address;

verus! {

/// The discriminator of a creation call: the bytes of "create" padded to
/// eight bytes.
pub open spec fn create_discriminator() -> Seq<u8> {
    seq![99u8, 114, 101, 97, 116, 101, 0, 0]
}

/// The discriminator of a buy call.
pub open spec fn buy_discriminator() -> Seq<u8> {
    seq![102u8, 6, 61, 18, 1, 218, 235, 234]
}

/// The discriminator of a sell call.
pub open spec fn sell_discriminator() -> Seq<u8> {
    seq![51u8, 230, 133, 164, 1, 127, 131, 173]
}

/// Executable form of `create_discriminator`.
pub fn create_discriminator_bytes() -> (r: Vec<u8>)
    ensures
        r@ == create_discriminator(),
{
    let v: Vec<u8> = vec![99u8, 114, 101, 97, 116, 101, 0, 0];
    proof {
        assert(v@ =~= create_discriminator());
    }
    v
}

/// Executable form of `buy_discriminator`.
pub fn buy_discriminator_bytes() -> (r: Vec<u8>)
    ensures
        r@ == buy_discriminator(),
{
    let v: Vec<u8> = vec![102u8, 6, 61, 18, 1, 218, 235, 234];
    proof {
        assert(v@ =~= buy_discriminator());
    }
    v
}

/// Executable form of `sell_discriminator`.
pub fn sell_discriminator_bytes() -> (r: Vec<u8>)
    ensures
        r@ == sell_discriminator(),
{
    let v: Vec<u8> = vec![51u8, 230, 133, 164, 1, 127, 131, 173];
    proof {
        assert(v@ =~= sell_discriminator());
    }
    v
}

/// The payload of a buy call: discriminator, token amount (slippage
/// already applied), maximum base-currency cost.
pub open spec fn buy_payload(token_amount: u64, max_sol_cost: u64) -> Seq<u8> {
    buy_discriminator() + spec_u64_to_le_bytes(token_amount) + spec_u64_to_le_bytes(max_sol_cost)
}

/// The payload of a sell call: discriminator, token amount to sell,
/// minimum base-currency output.
pub open spec fn sell_payload(token_amount: u64, min_sol_output: u64) -> Seq<u8> {
    sell_discriminator() + spec_u64_to_le_bytes(token_amount) + spec_u64_to_le_bytes(
        min_sol_output,
    )
}

/// The payload of a creation call: discriminator, then each text field
/// behind a 32-bit little-endian length prefix, then the 32-byte creator
/// address.
pub open spec fn create_payload(
    name: Seq<u8>,
    symbol: Seq<u8>,
    uri: Seq<u8>,
    creator: Seq<u8>,
) -> Seq<u8> {
    create_discriminator() + spec_u32_to_le_bytes(name.len() as u32) + name + spec_u32_to_le_bytes(
        symbol.len() as u32,
    ) + symbol + spec_u32_to_le_bytes(uri.len() as u32) + uri + creator
}

/// Appends every byte of `src` to `dst`, in order.
fn append_bytes(dst: &mut Vec<u8>, src: &Vec<u8>)
    ensures
        final(dst)@ == old(dst)@ + src@,
{
    let mut i: usize = 0;
    while i < src.len()
        invariant
            i <= src@.len(),
            dst@ == old(dst)@ + src@.subrange(0, i as int),
        decreases src@.len() - i,
    {
        let b = src[i];
        dst.push(b);
        proof {
            assert(dst@ =~= old(dst)@ + src@.subrange(0, i as int + 1));
        }
        i = i + 1;
    }
    proof {
        assert(dst@ =~= old(dst)@ + src@);
    }
}

/// Builds the sell payload: 24 bytes, byte-for-byte as `sell_payload`
/// states.
pub fn build_sell_instruction_data(tokens_to_sell: u64, min_sol_output: u64) -> (r: Vec<u8>)
    ensures
        r@ == sell_payload(tokens_to_sell, min_sol_output),
        r@.len() == 24,
{
    proof {
        lemma_auto_spec_u64_to_from_le_bytes();
    }
    let mut data = sell_discriminator_bytes();
    let mut amount = u64_to_le_bytes(tokens_to_sell);
    data.append(&mut amount);
    let mut min_out = u64_to_le_bytes(min_sol_output);
    data.append(&mut min_out);
    data
}

/// Builds the buy payload: 24 bytes, byte-for-byte as `buy_payload`
/// states.
pub fn build_buy_instruction_data(tokens_with_slippage: u64, max_sol_cost: u64) -> (r: Vec<u8>)
    ensures
        r@ == buy_payload(tokens_with_slippage, max_sol_cost),
        r@.len() == 24,
{
    proof {
        lemma_auto_spec_u64_to_from_le_bytes();
    }
    let mut data = buy_discriminator_bytes();
    let mut amount = u64_to_le_bytes(tokens_with_slippage);
    data.append(&mut amount);
    let mut max_cost = u64_to_le_bytes(max_sol_cost);
    data.append(&mut max_cost);
    data
}

/// Why a creation's text fields are rejected: an empty field, or one whose
/// byte length does not fit behind the 32-bit length prefix.
pub open spec fn spec_create_fields_error(
    name: Seq<u8>,
    symbol: Seq<u8>,
    uri: Seq<u8>,
) -> Option<PumpError> {
    if name.len() == 0 || symbol.len() == 0 || uri.len() == 0 {
        Some(PumpError::InvalidCreationRequest)
    } else if name.len() > u32::MAX || symbol.len() > u32::MAX || uri.len() > u32::MAX {
        Some(PumpError::FieldTooLong)
    } else {
        None
    }
}

/// Builds the creation payload, validating the text fields first: empty
/// fields are invalid, and each field must fit behind its 32-bit length
/// prefix.
pub fn build_create_instruction_data(
    name: &Vec<u8>,
    symbol: &Vec<u8>,
    uri: &Vec<u8>,
    creator: &Address,
) -> (r: Result<Vec<u8>, PumpError>)
    ensures
        match r {
            Ok(d) => spec_create_fields_error(name@, symbol@, uri@) is None && d@
                == create_payload(name@, symbol@, uri@, creator@),
            Err(e) => spec_create_fields_error(name@, symbol@, uri@) == Some(e),
        },
{
    if name.len() == 0 || symbol.len() == 0 || uri.len() == 0 {
        return Err(PumpError::InvalidCreationRequest);
    }
    if name.len() > u32::MAX as usize || symbol.len() > u32::MAX as usize || uri.len()
        > u32::MAX as usize {
        return Err(PumpError::FieldTooLong);
    }
    let mut data = create_discriminator_bytes();
    let mut name_len = u32_to_le_bytes(name.len() as u32);
    data.append(&mut name_len);
    append_bytes(&mut data, name);
    let mut symbol_len = u32_to_le_bytes(symbol.len() as u32);
    data.append(&mut symbol_len);
    append_bytes(&mut data, symbol);
    let mut uri_len = u32_to_le_bytes(uri.len() as u32);
    data.append(&mut uri_len);
    append_bytes(&mut data, uri);
    let mut creator_bytes = creator.to_vec();
    data.append(&mut creator_bytes);
    proof {
        assert(data@ =~= create_payload(name@, symbol@, uri@, creator@));
    }
    Ok(data)
}

/// True exactly when the first eight bytes of `data` are `disc`.
fn discriminator_matches(data: &Vec<u8>, disc: &Vec<u8>) -> (r: bool)
    requires
        disc@.len() == 8,
        data@.len() >= 8,
    ensures
        r == (data@.subrange(0, 8) == disc@),
{
    let mut i: usize = 0;
    while i < 8
        invariant
            i <= 8,
            disc@.len() == 8,
            data@.len() >= 8,
            forall|k: int| 0 <= k < i ==> data@[k] == disc@[k],
        decreases 8 - i,
    {
        if data[i] != disc[i] {
            proof {
                assert(data@.subrange(0, 8)[i as int] == data@[i as int]);
            }
            return false;
        }
        i = i + 1;
    }
    proof {
        assert(data@.subrange(0, 8) =~= disc@);
    }
    true
}

/// What a well-formed buy payload holds: `None` unless the length and the
/// discriminator match, otherwise the two little-endian amounts.
pub open spec fn parse_buy_payload(d: Seq<u8>) -> Option<(u64, u64)> {
    if d.len() == 24 && d.subrange(0, 8) == buy_discriminator() {
        Some(
            (
                spec_u64_from_le_bytes(d.subrange(8, 16)),
                spec_u64_from_le_bytes(d.subrange(16, 24)),
            ),
        )
    } else {
        None
    }
}

/// What a well-formed sell payload holds, as `parse_buy_payload` does for a
/// buy.
pub open spec fn parse_sell_payload(d: Seq<u8>) -> Option<(u64, u64)> {
    if d.len() == 24 && d.subrange(0, 8) == sell_discriminator() {
        Some(
            (
                spec_u64_from_le_bytes(d.subrange(8, 16)),
                spec_u64_from_le_bytes(d.subrange(16, 24)),
            ),
        )
    } else {
        None
    }
}

/// Decodes a buy payload back into `(token_amount, max_sol_cost)`.
pub fn decode_buy_instruction_data(data: &Vec<u8>) -> (r: Option<(u64, u64)>)
    ensures
        r == parse_buy_payload(data@),
{
    if data.len() != 24 {
        return None;
    }
    let disc = buy_discriminator_bytes();
    if !discriminator_matches(data, &disc) {
        return None;
    }
    let token_amount = u64_from_le_bytes(slice_subrange(data.as_slice(), 8, 16));
    let max_sol_cost = u64_from_le_bytes(slice_subrange(data.as_slice(), 16, 24));
    Some((token_amount, max_sol_cost))
}

/// Decodes a sell payload back into `(token_amount, min_sol_output)`.
pub fn decode_sell_instruction_data(data: &Vec<u8>) -> (r: Option<(u64, u64)>)
    ensures
        r == parse_sell_payload(data@),
{
    if data.len() != 24 {
        return None;
    }
    let disc = sell_discriminator_bytes();
    if !discriminator_matches(data, &disc) {
        return None;
    }
    let token_amount = u64_from_le_bytes(slice_subrange(data.as_slice(), 8, 16));
    let min_sol_output = u64_from_le_bytes(slice_subrange(data.as_slice(), 16, 24));
    Some((token_amount, min_sol_output))
}

/// What a well-formed creation payload holds: the three length-prefixed
/// text fields and the creator address, or `None` when the discriminator,
/// a length prefix or the total length does not fit the layout.
pub open spec fn parse_create_payload(d: Seq<u8>) -> Option<(Seq<u8>, Seq<u8>, Seq<u8>, Seq<u8>)> {
    if d.len() < 12 || d.subrange(0, 8) != create_discriminator() {
        None
    } else {
        let name_len = spec_u32_from_le_bytes(d.subrange(8, 12)) as int;
        if d.len() < name_len + 16 {
            None
        } else {
            let name = d.subrange(12, 12 + name_len);
            let symbol_len = spec_u32_from_le_bytes(
                d.subrange(12 + name_len, 16 + name_len),
            ) as int;
            if d.len() < name_len + symbol_len + 20 {
                None
            } else {
                let symbol = d.subrange(16 + name_len, 16 + name_len + symbol_len);
                let uri_len = spec_u32_from_le_bytes(
                    d.subrange(16 + name_len + symbol_len, 20 + name_len + symbol_len),
                ) as int;
                if d.len() != name_len + symbol_len + uri_len + 52 {
                    None
                } else {
                    let uri = d.subrange(
                        20 + name_len + symbol_len,
                        20 + name_len + symbol_len + uri_len,
                    );
                    let creator = d.subrange(20 + name_len + symbol_len + uri_len, d.len() as int);
                    Some((name, symbol, uri, creator))
                }
            }
        }
    }
}

/// A fresh vector holding `data[start..end]`.
fn bytes_range(data: &Vec<u8>, start: usize, end: usize) -> (r: Vec<u8>)
    requires
        start <= end <= data@.len(),
    ensures
        r@ == data@.subrange(start as int, end as int),
{
    slice_to_vec(slice_subrange(data.as_slice(), start, end))
}

/// The 32 bytes of `data` from `start` on, as an address.
fn address_from_range(data: &Vec<u8>, start: usize) -> (r: Address)
    requires
        start + 32 <= data@.len(),
    ensures
        r@ == data@.subrange(start as int, start as int + 32),
{
    let len = data.len();
    assert(start + 32 <= len);
    let s = start;
    let bytes: [u8; 32] = [
        data[s], data[s + 1], data[s + 2], data[s + 3], data[s + 4], data[s + 5], data[s + 6],
        data[s + 7], data[s + 8], data[s + 9], data[s + 10], data[s + 11], data[s + 12], data[s
            + 13], data[s + 14], data[s + 15], data[s + 16], data[s + 17], data[s + 18], data[s
            + 19], data[s + 20], data[s + 21], data[s + 22], data[s + 23], data[s + 24], data[s
            + 25], data[s + 26], data[s + 27], data[s + 28], data[s + 29], data[s + 30], data[s
            + 31],
    ];
    proof {
        assert(bytes@ =~= data@.subrange(start as int, start as int + 32));
    }
    Address { bytes }
}

/// Decodes a creation payload back into its name, symbol, URI and creator.
pub fn decode_create_instruction_data(data: &Vec<u8>) -> (r: Option<
    (Vec<u8>, Vec<u8>, Vec<u8>, Address),
>)
    ensures
        match r {
            Some(t) => parse_create_payload(data@) is Some && {
                let p = parse_create_payload(data@).unwrap();
                t.0@ == p.0 && t.1@ == p.1 && t.2@ == p.2 && t.3@ == p.3
            },
            None => parse_create_payload(data@) is None,
        },
{
    if data.len() < 12 {
        return None;
    }
    let disc = create_discriminator_bytes();
    if !discriminator_matches(data, &disc) {
        return None;
    }
    let name_len = u32_from_le_bytes(slice_subrange(data.as_slice(), 8, 12)) as usize;
    if data.len() < 16 || data.len() - 16 < name_len {
        return None;
    }
    let name = bytes_range(data, 12, 12 + name_len);
    let off1 = 12 + name_len;
    let symbol_len = u32_from_le_bytes(slice_subrange(data.as_slice(), off1, off1 + 4)) as usize;
    if data.len() - off1 < 8 || (data.len() - off1) - 8 < symbol_len {
        return None;
    }
    let symbol = bytes_range(data, off1 + 4, off1 + 4 + symbol_len);
    let off2 = off1 + 4 + symbol_len;
    let uri_len = u32_from_le_bytes(slice_subrange(data.as_slice(), off2, off2 + 4)) as usize;
    let rest = data.len() - (off2 + 4);
    if rest < 32 || rest - 32 != uri_len {
        return None;
    }
    let uri = bytes_range(data, off2 + 4, off2 + 4 + uri_len);
    let creator = address_from_range(data, off2 + 4 + uri_len);
    proof {
        assert(data@.subrange(off2 + 4 + uri_len as int, data@.len() as int) =~= data@.subrange(
            off2 + 4 + uri_len as int,
            off2 + 4 + uri_len + 32,
        ));
    }
    Some((name, symbol, uri, creator))
}

/// Round trip of a creation payload: parsing what was encoded recovers the
/// name, symbol, URI and creator exactly, byte for byte.
pub proof fn lemma_create_round_trip(name: Seq<u8>, symbol: Seq<u8>, uri: Seq<u8>, creator: Seq<u8>)
    requires
        name.len() <= u32::MAX,
        symbol.len() <= u32::MAX,
        uri.len() <= u32::MAX,
        creator.len() == 32,
    ensures
        parse_create_payload(create_payload(name, symbol, uri, creator)) == Some(
            (name, symbol, uri, creator),
        ),
{
    lemma_auto_spec_u32_to_from_le_bytes();
    let d = create_payload(name, symbol, uri, creator);
    let n = name.len() as int;
    let s = symbol.len() as int;
    let u = uri.len() as int;
    assert(d.len() == n + s + u + 52);
    assert(d.subrange(0, 8) =~= create_discriminator());
    assert(d.subrange(8, 12) =~= spec_u32_to_le_bytes(name.len() as u32));
    assert(d.subrange(12, 12 + n) =~= name);
    assert(d.subrange(12 + n, 16 + n) =~= spec_u32_to_le_bytes(symbol.len() as u32));
    assert(d.subrange(16 + n, 16 + n + s) =~= symbol);
    assert(d.subrange(16 + n + s, 20 + n + s) =~= spec_u32_to_le_bytes(uri.len() as u32));
    assert(d.subrange(20 + n + s, 20 + n + s + u) =~= uri);
    assert(d.subrange(20 + n + s + u, d.len() as int) =~= creator);
}

/// Round trip of a buy payload: parsing what was encoded recovers both
/// amounts exactly.
pub proof fn lemma_buy_round_trip(token_amount: u64, max_sol_cost: u64)
    ensures
        parse_buy_payload(buy_payload(token_amount, max_sol_cost)) == Some(
            (token_amount, max_sol_cost),
        ),
{
    lemma_auto_spec_u64_to_from_le_bytes();
    let d = buy_payload(token_amount, max_sol_cost);
    assert(d.subrange(0, 8) =~= buy_discriminator());
    assert(d.subrange(8, 16) =~= spec_u64_to_le_bytes(token_amount));
    assert(d.subrange(16, 24) =~= spec_u64_to_le_bytes(max_sol_cost));
}

/// Round trip of a sell payload: parsing what was encoded recovers both
/// amounts exactly.
pub proof fn lemma_sell_round_trip(token_amount: u64, min_sol_output: u64)
    ensures
        parse_sell_payload(sell_payload(token_amount, min_sol_output)) == Some(
            (token_amount, min_sol_output),
        ),
{
    lemma_auto_spec_u64_to_from_le_bytes();
    let d = sell_payload(token_amount, min_sol_output);
    assert(d.subrange(0, 8) =~= sell_discriminator());
    assert(d.subrange(8, 16) =~= spec_u64_to_le_bytes(token_amount));
    assert(d.subrange(16, 24) =~= spec_u64_to_le_bytes(min_sol_output));
}

} // verus!
