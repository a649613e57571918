//! Big-endian integers: the number that a run of bytes denotes, and the
//! calls that read such numbers from a byte cursor and write them out.

use byteorder::NetworkEndian;
use byteorder::ReadBytesExt;
use vstd::arithmetic::div_mod::lemma_fundamental_div_mod_converse;
use vstd::arithmetic::div_mod::lemma_mod_breakdown;
use vstd::prelude::*;

verus! {

/// 256 to the power `n`.
pub open spec fn pow256(n: nat) -> nat
    decreases n,
{
    if n == 0 {
        1
    } else {
        256 * pow256((n - 1) as nat)
    }
}

/// The number that `bytes` denotes in base 256, most significant byte first.
pub open spec fn be_value(bytes: Seq<u8>) -> nat
    decreases bytes.len(),
{
    if bytes.len() == 0 {
        0
    } else {
        256 * be_value(bytes.drop_last()) + bytes.last() as nat
    }
}

/// The `len` bytes, most significant first, that denote `value` modulo
/// `pow256(len)`.
pub open spec fn be_bytes(value: nat, len: nat) -> Seq<u8>
    decreases len,
{
    if len == 0 {
        Seq::empty()
    } else {
        be_bytes(value / 256, (len - 1) as nat).push((value % 256) as u8)
    }
}

/// The unsigned number that stands for `x` in 64-bit two's complement.
pub open spec fn unsigned64(x: i64) -> nat {
    if x < 0 {
        (x + 0x1_0000_0000_0000_0000) as nat
    } else {
        x as nat
    }
}

/// The signed number that the 64-bit two's complement pattern `n` stands for.
pub open spec fn signed64(n: nat) -> i64 {
    if n >= 0x8000_0000_0000_0000 {
        (n - 0x1_0000_0000_0000_0000) as i64
    } else {
        n as i64
    }
}

/// The unsigned number that stands for `x` in 32-bit two's complement.
pub open spec fn unsigned32(x: i32) -> nat {
    if x < 0 {
        (x + 0x1_0000_0000) as nat
    } else {
        x as nat
    }
}

/// The signed number that the 32-bit two's complement pattern `n` stands for.
pub open spec fn signed32(n: nat) -> i32 {
    if n >= 0x8000_0000 {
        (n - 0x1_0000_0000) as i32
    } else {
        n as i32
    }
}

/// The eight bytes of `x` in network byte order.
pub open spec fn i64_be_bytes(x: i64) -> Seq<u8> {
    be_bytes(unsigned64(x), 8)
}

/// The four bytes of `x` in network byte order.
pub open spec fn i32_be_bytes(x: i32) -> Seq<u8> {
    be_bytes(unsigned32(x), 4)
}

/// The signed 64-bit integer that eight bytes in network byte order denote.
pub open spec fn i64_from_be(bytes: Seq<u8>) -> i64 {
    signed64(be_value(bytes))
}

/// The signed 32-bit integer that four bytes in network byte order denote.
pub open spec fn i32_from_be(bytes: Seq<u8>) -> i32 {
    signed32(be_value(bytes))
}

/// The unsigned 64-bit integer that eight bytes in network byte order denote.
pub open spec fn u64_from_be(bytes: Seq<u8>) -> u64 {
    be_value(bytes) as u64
}

/// `pow256` is positive, and its values at the two widths in use.
pub proof fn lemma_pow256_values()
    ensures
        forall|n: nat| pow256(n) > 0,
        pow256(4) == 0x1_0000_0000,
        pow256(8) == 0x1_0000_0000_0000_0000,
{
    assert forall|n: nat| pow256(n) > 0 by {
        lemma_pow256_positive(n);
    }
    reveal_with_fuel(pow256, 9);
}

proof fn lemma_pow256_positive(n: nat)
    ensures
        pow256(n) > 0,
    decreases n,
{
    if n > 0 {
        lemma_pow256_positive((n - 1) as nat);
    }
}

/// Bytes denote a number below `pow256` of their count.
pub proof fn lemma_be_value_bound(bytes: Seq<u8>)
    ensures
        be_value(bytes) < pow256(bytes.len()),
    decreases bytes.len(),
{
    if bytes.len() > 0 {
        lemma_be_value_bound(bytes.drop_last());
    }
}

/// Writing a number out in `len` bytes and reading the bytes back gives the
/// number modulo `pow256(len)`.
pub proof fn lemma_value_of_bytes(value: nat, len: nat)
    ensures
        be_bytes(value, len).len() == len,
        be_value(be_bytes(value, len)) == value % pow256(len),
    decreases len,
{
    if len > 0 {
        let rest = (len - 1) as nat;
        lemma_value_of_bytes(value / 256, rest);
        lemma_pow256_positive(rest);
        assert(be_bytes(value, len).drop_last() =~= be_bytes(value / 256, rest));
        lemma_mod_breakdown(value as int, 256, pow256(rest) as int);
    }
}

/// Reading bytes and writing the number out in as many bytes gives the bytes.
pub proof fn lemma_bytes_of_value(bytes: Seq<u8>)
    ensures
        be_bytes(be_value(bytes), bytes.len()) == bytes,
    decreases bytes.len(),
{
    if bytes.len() > 0 {
        let init = bytes.drop_last();
        lemma_bytes_of_value(init);
        lemma_fundamental_div_mod_converse(
            be_value(bytes) as int,
            256,
            be_value(init) as int,
            bytes.last() as int,
        );
        assert(be_bytes(be_value(bytes), bytes.len()) =~= bytes);
    }
}

/// Network byte order loses nothing of a signed 64-bit integer.
pub proof fn lemma_i64_round_trip(x: i64)
    ensures
        i64_be_bytes(x).len() == 8,
        i64_from_be(i64_be_bytes(x)) == x,
{
    lemma_value_of_bytes(unsigned64(x), 8);
    lemma_pow256_values();
}

/// Network byte order loses nothing of a signed 32-bit integer.
pub proof fn lemma_i32_round_trip(x: i32)
    ensures
        i32_be_bytes(x).len() == 4,
        i32_from_be(i32_be_bytes(x)) == x,
{
    lemma_value_of_bytes(unsigned32(x), 4);
    lemma_pow256_values();
}

/// Eight bytes are the network byte order of the integer that they denote.
pub proof fn lemma_i64_bytes_round_trip(bytes: Seq<u8>)
    requires
        bytes.len() == 8,
    ensures
        i64_be_bytes(i64_from_be(bytes)) == bytes,
{
    lemma_be_value_bound(bytes);
    lemma_bytes_of_value(bytes);
    lemma_pow256_values();
}

/// Four bytes are the network byte order of the integer that they denote.
pub proof fn lemma_i32_bytes_round_trip(bytes: Seq<u8>)
    requires
        bytes.len() == 4,
    ensures
        i32_be_bytes(i32_from_be(bytes)) == bytes,
{
    lemma_be_value_bound(bytes);
    lemma_bytes_of_value(bytes);
    lemma_pow256_values();
}

/// The error of std's readers, carried through and never looked into.
#[verifier::external_type_specification]
#[verifier::external_body]
pub struct ExIoError(std::io::Error);

/// `ReadBytesExt::read_i64::<NetworkEndian>` of byteorder, on a byte slice
/// as the reader. Believed, not proved: the call succeeds exactly when eight
/// bytes are left; it then returns the integer that the first eight bytes
/// denote in network byte order and moves the slice past them.
#[verifier::external_body]
pub(crate) fn read_i64_be(buf: &mut &[u8]) -> (r: Result<i64, std::io::Error>)
    ensures
        r is Ok <==> old(buf)@.len() >= 8,
        r matches Ok(v) ==> v == i64_from_be(old(buf)@.take(8)) && final(buf)@ == old(buf)@.skip(8),
{
    buf.read_i64::<NetworkEndian>()
}

/// `ReadBytesExt::read_i32::<NetworkEndian>` of byteorder, on a byte slice
/// as the reader. Believed, not proved: the call succeeds exactly when four
/// bytes are left; it then returns the integer that the first four bytes
/// denote in network byte order and moves the slice past them.
#[verifier::external_body]
pub(crate) fn read_i32_be(buf: &mut &[u8]) -> (r: Result<i32, std::io::Error>)
    ensures
        r is Ok <==> old(buf)@.len() >= 4,
        r matches Ok(v) ==> v == i32_from_be(old(buf)@.take(4)) && final(buf)@ == old(buf)@.skip(4),
{
    buf.read_i32::<NetworkEndian>()
}

/// `ReadBytesExt::read_u64::<NetworkEndian>` of byteorder, on a byte slice
/// as the reader. Believed, not proved: the call succeeds exactly when eight
/// bytes are left; it then returns the number that the first eight bytes
/// denote in network byte order and moves the slice past them.
#[verifier::external_body]
pub(crate) fn read_u64_be(buf: &mut &[u8]) -> (r: Result<u64, std::io::Error>)
    ensures
        r is Ok <==> old(buf)@.len() >= 8,
        r matches Ok(v) ==> v == u64_from_be(old(buf)@.take(8)) && final(buf)@ == old(buf)@.skip(8),
{
    buf.read_u64::<NetworkEndian>()
}

/// `i64::to_be_bytes` of std. Believed, not proved: the array holds the
/// two's complement of `x`, most significant byte first.
#[verifier::external_body]
pub(crate) fn i64_to_be_bytes(x: i64) -> (bytes: [u8; 8])
    ensures
        bytes@ == i64_be_bytes(x),
{
    x.to_be_bytes()
}

/// `i32::to_be_bytes` of std. Believed, not proved: the array holds the
/// two's complement of `x`, most significant byte first.
#[verifier::external_body]
pub(crate) fn i32_to_be_bytes(x: i32) -> (bytes: [u8; 4])
    ensures
        bytes@ == i32_be_bytes(x),
{
    x.to_be_bytes()
}

} // verus!
