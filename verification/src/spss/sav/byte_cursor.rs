//! Sequential reads over an in-memory payload: each read takes a value
//! off the front of the remaining bytes, or fails when too few remain.
use vstd::prelude::*;

use crate::spss::sav::byte_order::ByteOrder;

verus! {

/// `n` bytes off the front of `s`, and what remains.
pub open spec fn take_bytes(s: Seq<u8>, n: nat) -> Option<(Seq<u8>, Seq<u8>)> {
    if s.len() < n {
        None
    } else {
        Some((s.take(n as int), s.skip(n as int)))
    }
}

/// One byte off the front of `s`, and what remains.
pub open spec fn take_u8(s: Seq<u8>) -> Option<(u8, Seq<u8>)> {
    if s.len() < 1 {
        None
    } else {
        Some((s[0], s.skip(1)))
    }
}

/// A `u32` in `byte_order` off the front of `s`, and what remains.
pub open spec fn take_u32(s: Seq<u8>, byte_order: ByteOrder) -> Option<(u32, Seq<u8>)> {
    if s.len() < 4 {
        None
    } else {
        Some((byte_order.unsigned(s.take(4)) as u32, s.skip(4)))
    }
}

/// A byte string prefixed by its `u32` length off the front of `s`, and
/// what remains.
pub open spec fn take_length_prefixed(s: Seq<u8>, byte_order: ByteOrder) -> Option<
    (Seq<u8>, Seq<u8>),
> {
    match take_u32(s, byte_order) {
        None => None,
        Some((n, rest)) => take_bytes(rest, n as nat),
    }
}

/// Reads one byte at `at`, returning it and the offset after it.
pub fn read_u8_at(payload: &[u8], at: usize) -> (res: Option<(u8, usize)>)
    requires
        at <= payload@.len(),
    ensures
        res is None <==> take_u8(payload@.skip(at as int)) is None,
        res matches Some((v, next)) ==> next == at + 1 && next <= payload@.len() && take_u8(payload@.skip(at as int))
            == Some((v, payload@.skip(next as int))),
{
    if at >= payload.len() {
        return None;
    }
    assert(payload@.skip(at as int).skip(1) =~= payload@.skip(at + 1));
    Some((payload[at], at + 1))
}

/// Reads a `u32` in `byte_order` at `at`, returning it and the offset
/// after it.
pub fn read_u32_at(payload: &[u8], at: usize, byte_order: ByteOrder) -> (res: Option<(u32, usize)>)
    requires
        at <= payload@.len(),
    ensures
        res is None <==> take_u32(payload@.skip(at as int), byte_order) is None,
        res matches Some((v, next)) ==> next == at + 4 && next <= payload@.len() && take_u32(
            payload@.skip(at as int),
            byte_order,
        ) == Some((v, payload@.skip(next as int))),
{
    if payload.len() - at < 4 {
        return None;
    }
    let bytes = [payload[at], payload[at + 1], payload[at + 2], payload[at + 3]];
    assert(bytes@ =~= payload@.skip(at as int).take(4));
    assert(payload@.skip(at as int).skip(4) =~= payload@.skip(at + 4));
    Some((byte_order.read_u32(bytes), at + 4))
}

/// Reads `n` bytes at `at`, returning their end offset.
pub fn read_bytes_at(payload: &[u8], at: usize, n: usize) -> (res: Option<usize>)
    requires
        at <= payload@.len(),
    ensures
        res is None <==> take_bytes(payload@.skip(at as int), n as nat) is None,
        res matches Some(end) ==> end == at + n && end <= payload@.len() && take_bytes(
            payload@.skip(at as int),
            n as nat,
        ) == Some((payload@.subrange(at as int, end as int), payload@.skip(end as int))),
{
    if payload.len() - at < n {
        return None;
    }
    assert(payload@.skip(at as int).take(n as int) =~= payload@.subrange(at as int, at + n));
    assert(payload@.skip(at as int).skip(n as int) =~= payload@.skip(at + n));
    Some(at + n)
}

/// Reads a `u32`-length-prefixed byte string at `at`, returning the
/// string's start and end offsets.
pub fn read_length_prefixed_at(payload: &[u8], at: usize, byte_order: ByteOrder) -> (res: Option<
    (usize, usize),
>)
    requires
        at <= payload@.len(),
    ensures
        res is None <==> take_length_prefixed(payload@.skip(at as int), byte_order) is None,
        res matches Some((start, end)) ==> start == at + 4 && start <= end <= payload@.len()
            && take_length_prefixed(payload@.skip(at as int), byte_order) == Some(
            (payload@.subrange(start as int, end as int), payload@.skip(end as int)),
        ),
{
    match read_u32_at(payload, at, byte_order) {
        None => None,
        Some((n, start)) => match read_bytes_at(payload, start, n as usize) {
            None => None,
            Some(end) => Some((start, end)),
        },
    }
}

} // verus!
