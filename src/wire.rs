//! Primitive wire encodings and the packet container they fill.

use rust_mc_proto::{DataReader, DataWriter, Packet, ProtocolError};
use vstd::prelude::*;
use vstd::string::StringSliceAdditionalSpecFns;

verus! {

/// Two's-complement bit pattern of a 32-bit signed value.
pub open spec fn bits32(v: i32) -> u32 {
    if v >= 0 {
        v as u32
    } else {
        (v + 0x1_0000_0000) as u32
    }
}

/// Two's-complement bit pattern of a 64-bit signed value.
pub open spec fn bits64(v: i64) -> u64 {
    if v >= 0 {
        v as u64
    } else {
        (v + 0x1_0000_0000_0000_0000) as u64
    }
}

/// Varint bytes of an unsigned value: seven data bits per byte, least
/// significant group first, the high bit set on every byte but the last.
pub open spec fn varint_u32(v: u32) -> Seq<u8>
    decreases v,
{
    if v < 0x80 {
        seq![v as u8]
    } else {
        seq![(v % 0x80 + 0x80) as u8] + varint_u32(v / 0x80)
    }
}

/// Varint bytes of a signed value (its two's-complement bit pattern).
pub open spec fn varint(v: i32) -> Seq<u8> {
    varint_u32(bits32(v))
}

/// `256` to the power `n`: the number of values that `n` bytes hold.
pub open spec fn byte_scale(n: nat) -> nat
    decreases n,
{
    if n == 0 {
        1
    } else {
        256 * byte_scale((n - 1) as nat)
    }
}

/// The low `n` bytes of a non-negative value, most significant first.
pub open spec fn be_bytes(v: int, n: nat) -> Seq<u8>
    decreases n,
{
    if n == 0 {
        Seq::empty()
    } else {
        be_bytes(v / 256, (n - 1) as nat).push((v % 256) as u8)
    }
}

/// Value of big-endian bytes, most significant first.
pub open spec fn be_value(b: Seq<u8>) -> int
    decreases b.len(),
{
    if b.len() == 0 {
        0
    } else {
        be_value(b.drop_last()) * 256 + b.last()
    }
}

/// Big-endian bytes of a 32-bit pattern.
pub open spec fn be32(v: u32) -> Seq<u8> {
    be_bytes(v as int, 4)
}

/// Big-endian bytes of a 64-bit pattern.
pub open spec fn be64(v: u64) -> Seq<u8> {
    be_bytes(v as int, 8)
}

/// One byte holding a boolean: 1 for true, 0 for false.
pub open spec fn bool_byte(b: bool) -> Seq<u8> {
    if b {
        seq![1u8]
    } else {
        seq![0u8]
    }
}

/// A length-prefixed string: the varint byte length, then the UTF-8 bytes.
pub open spec fn string_bytes(utf8: Seq<u8>) -> Seq<u8> {
    varint(utf8.len() as i32) + utf8
}

/// Number of varint bytes for an unsigned value: one per started group of
/// seven bits, and one for zero.
pub open spec fn varint_len(u: u32) -> nat {
    if u < 0x80 {
        1
    } else if u < 0x4000 {
        2
    } else if u < 0x20_0000 {
        3
    } else if u < 0x1000_0000 {
        4
    } else {
        5
    }
}

/// Value that varint bytes stand for: the low seven bits of each byte,
/// least significant group first.
pub open spec fn varint_value(b: Seq<u8>) -> int
    decreases b.len(),
{
    if b.len() == 0 {
        0
    } else {
        (b[0] % 0x80) as int + 0x80 * varint_value(b.drop_first())
    }
}

/// Signed value of a 32-bit two's-complement pattern.
pub open spec fn signed32(u: int) -> int {
    if u < 0x8000_0000 {
        u
    } else {
        u - 0x1_0000_0000
    }
}

proof fn lemma_varint_u32(u: u32)
    ensures
        varint_value(varint_u32(u)) == u,
        varint_u32(u).len() == varint_len(u),
        varint_u32(u)[varint_u32(u).len() - 1] < 0x80,
        forall|i: int| 0 <= i < varint_u32(u).len() - 1 ==> varint_u32(u)[i] >= 0x80,
    decreases u,
{
    let b = varint_u32(u);
    if u >= 0x80 {
        let rest = varint_u32(u / 0x80);
        lemma_varint_u32(u / 0x80);
        assert(b.drop_first() =~= rest);
        assert(b[0] % 0x80 == u % 0x80);
        assert(u == u % 0x80 + 0x80 * (u / 0x80)) by (nonlinear_arith);
        assert(varint_value(b) == (b[0] % 0x80) as int + 0x80 * varint_value(rest));
        assert forall|i: int| 0 <= i < b.len() - 1 implies b[i] >= 0x80 by {
            if i > 0 {
                assert(b[i] == rest[i - 1]);
            }
        }
    } else {
        assert(b.drop_first() =~= Seq::<u8>::empty());
        assert(varint_value(b) == (b[0] % 0x80) as int + 0x80 * varint_value(b.drop_first()));
        assert(b[0] == u);
    }
}

/// Varint round trip: decoding the varint bytes of any 32-bit signed
/// integer gives the integer back. The bytes number one per started group
/// of seven bits of its bit pattern, every byte but the last has its high
/// bit set, and the last has it clear.
pub proof fn lemma_varint_round_trip(v: i32)
    ensures
        signed32(varint_value(varint(v))) == v,
        varint(v).len() == varint_len(bits32(v)),
        varint(v)[varint(v).len() - 1] < 0x80,
        forall|i: int| 0 <= i < varint(v).len() - 1 ==> varint(v)[i] >= 0x80,
{
    lemma_varint_u32(bits32(v));
}

/// Reading `n` big-endian bytes of a value gives the value modulo
/// `256^n`.
pub proof fn lemma_be_round_trip(v: int, n: nat)
    requires
        v >= 0,
    ensures
        be_bytes(v, n).len() == n,
        byte_scale(n) > 0,
        be_value(be_bytes(v, n)) == v % (byte_scale(n) as int),
    decreases n,
{
    if n > 0 {
        let m = (n - 1) as nat;
        lemma_be_round_trip(v / 256, m);
        let b = be_bytes(v, n);
        assert(b.drop_last() =~= be_bytes(v / 256, m));
        vstd::arithmetic::div_mod::lemma_mod_breakdown(v, 256, byte_scale(m) as int);
    }
}

/// The eight big-endian bytes of a 64-bit pattern read back as the same
/// pattern.
pub proof fn lemma_be64_round_trip(u: u64)
    ensures
        be64(u).len() == 8,
        be_value(be64(u)) == u,
{
    lemma_be_round_trip(u as int, 8);
    reveal_with_fuel(byte_scale, 9);
    assert(byte_scale(8) == 0x1_0000_0000_0000_0000);
}

#[verifier::external_type_specification]
#[verifier::external_body]
pub struct ExPacket(Packet);

#[verifier::external_type_specification]
#[verifier::external_body]
pub struct ExProtocolError(ProtocolError);

/// Message-type identifier that a packet carries.
pub uninterp spec fn packet_id(p: Packet) -> u8;

/// Bytes of a packet's buffer (its payload, without the identifier).
pub uninterp spec fn packet_data(p: Packet) -> Seq<u8>;

/// Relies on `DataWriter::write_byte` for `Vec<u8>`: it appends the byte;
/// writing into a `Vec<u8>` appends and cannot fail.
#[verifier::external_body]
pub(crate) fn put_byte(buf: &mut Vec<u8>, v: u8)
    ensures
        final(buf)@ == old(buf)@.push(v),
{
    let _ = buf.write_byte(v);
}

/// Relies on `Packet::from_bytes`: a packet with the given identifier whose
/// buffer is a copy of the given bytes.
#[verifier::external_body]
pub(crate) fn packet_from(id: u8, data: &Vec<u8>) -> (r: Packet)
    ensures
        packet_id(r) == id,
        packet_data(r) == data@,
{
    Packet::from_bytes(id, data.as_slice())
}

/// Relies on `Packet::id`: it returns the packet's identifier.
pub assume_specification[ Packet::id ](p: &Packet) -> (r: u8)
    ensures
        r == packet_id(*p),
;

/// Relies on `Packet::get_bytes`: it returns the whole buffer.
pub assume_specification[ Packet::get_bytes ](p: &Packet) -> (r: &[u8])
    ensures
        r@ == packet_data(*p),
;

/// Relies on `DataWriter::write_boolean` for `Vec<u8>`: it appends 1 or 0.
#[verifier::external_body]
pub(crate) fn put_boolean(buf: &mut Vec<u8>, v: bool)
    ensures
        final(buf)@ == old(buf)@ + bool_byte(v),
{
    let _ = buf.write_boolean(v);
}

/// Relies on `DataWriter::write_int` for `Vec<u8>`: it appends the
/// big-endian bytes of the value.
#[verifier::external_body]
pub(crate) fn put_int(buf: &mut Vec<u8>, v: i32)
    ensures
        final(buf)@ == old(buf)@ + be32(bits32(v)),
{
    let _ = buf.write_int(v);
}

/// Relies on `DataWriter::write_long` for `Vec<u8>`: it appends the
/// big-endian bytes of the value.
#[verifier::external_body]
pub(crate) fn put_long(buf: &mut Vec<u8>, v: i64)
    ensures
        final(buf)@ == old(buf)@ + be64(bits64(v)),
{
    let _ = buf.write_long(v);
}

/// Relies on `DataWriter::write_varint` for `Vec<u8>`: it appends the
/// varint bytes of the value's bit pattern.
#[verifier::external_body]
pub(crate) fn put_varint(buf: &mut Vec<u8>, v: i32)
    ensures
        final(buf)@ == old(buf)@ + varint(v),
{
    let _ = buf.write_varint(v);
}

/// Relies on `DataWriter::write_string` for `Vec<u8>`: the byte length as a
/// varint, then the UTF-8 bytes; it refuses a length over `i32::MAX`
/// before writing anything.
#[verifier::external_body]
pub(crate) fn put_string(buf: &mut Vec<u8>, s: &str) -> (r: Result<(), ProtocolError>)
    ensures
        r is Ok <==> s.spec_bytes().len() <= i32::MAX,
        r is Ok ==> final(buf)@ == old(buf)@ + string_bytes(s.spec_bytes()),
        r is Err ==> final(buf)@ == old(buf)@,
{
    buf.write_string(s)
}

/// Relies on `DataWriter::write_bytes` for `Vec<u8>`: it appends the bytes
/// as they are.
#[verifier::external_body]
pub(crate) fn put_bytes(buf: &mut Vec<u8>, bytes: &[u8])
    ensures
        final(buf)@ == old(buf)@ + bytes@,
{
    let _ = buf.write_bytes(bytes);
}

/// Relies on `DataReader::read_long` for a byte slice: it reads the first
/// eight bytes as a big-endian signed value, and fails when there are fewer.
#[verifier::external_body]
pub(crate) fn read_long(bytes: &[u8]) -> (r: Result<i64, ProtocolError>)
    ensures
        r is Ok <==> bytes@.len() >= 8,
        r matches Ok(v) ==> bits64(v) == be_value(bytes@.subrange(0, 8)),
{
    let mut rest: &[u8] = bytes;
    rest.read_long()
}

/// Appends the big-endian bytes of a 32-bit pattern (a single-precision
/// float is written this way).
pub fn put_bits32(buf: &mut Vec<u8>, bits: u32)
    ensures
        final(buf)@ == old(buf)@ + be32(bits),
{
    let v: i32 = if bits < 0x8000_0000 {
        bits as i32
    } else {
        (bits as i64 - 0x1_0000_0000) as i32
    };
    put_int(buf, v);
}

/// Appends the big-endian bytes of a 64-bit pattern (a double-precision
/// float is written this way).
pub fn put_bits64(buf: &mut Vec<u8>, bits: u64)
    ensures
        final(buf)@ == old(buf)@ + be64(bits),
{
    let v: i64 = if bits < 0x8000_0000_0000_0000 {
        bits as i64
    } else {
        (bits as i128 - 0x1_0000_0000_0000_0000) as i64
    };
    put_long(buf, v);
}

} // verus!
