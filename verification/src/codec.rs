//! The register decoder: a raw read of 16-bit registers is serialised into
//! its big-endian byte image, and each data point reader extracts one typed
//! scalar at its byte offset and renders it as decimal text.

use vstd::prelude::*;

use crate::definitions::DataPoint;
use crate::text::dec_str_int;
use crate::text::dec_str_nat;
use crate::text::fmt_i64;
use crate::text::fmt_u64;

verus! {

/// The powers of 256: how many values a byte string of a given width can
/// take.
pub open spec fn pow256(w: nat) -> nat
    decreases w,
{
    if w == 0 {
        1
    } else {
        256 * pow256((w - 1) as nat)
    }
}

proof fn lemma_pow256_increases(a: nat, b: nat)
    requires
        a <= b,
    ensures
        pow256(a) <= pow256(b),
    decreases b,
{
    if a < b {
        lemma_pow256_increases(a, (b - 1) as nat);
    }
}

/// The value of a big-endian byte string.
pub open spec fn be_val(b: Seq<u8>) -> nat
    decreases b.len(),
{
    if b.len() == 0 {
        0
    } else {
        be_val(b.drop_last()) * 256 + b.last() as nat
    }
}

proof fn lemma_be_val_push(b: Seq<u8>, x: u8)
    ensures
        be_val(b.push(x)) == be_val(b) * 256 + x,
{
    assert(b.push(x).drop_last() =~= b);
    assert(b.push(x).last() == x);
}

proof fn lemma_be_val_bound(b: Seq<u8>)
    ensures
        be_val(b) < pow256(b.len()),
    decreases b.len(),
{
    if b.len() == 0 {
    } else {
        lemma_be_val_bound(b.drop_last());
    }
}

/// The high byte of a register.
pub open spec fn reg_hi(r: u16) -> u8 {
    (r / 256) as u8
}

/// The low byte of a register.
pub open spec fn reg_lo(r: u16) -> u8 {
    (r % 256) as u8
}

/// The big-endian byte image of a raw register read: two bytes per register,
/// high byte first.
pub open spec fn be_bytes_of_regs(regs: Seq<u16>) -> Seq<u8>
    decreases regs.len(),
{
    if regs.len() == 0 {
        Seq::empty()
    } else {
        seq![reg_hi(regs[0]), reg_lo(regs[0])] + be_bytes_of_regs(regs.drop_first())
    }
}

proof fn lemma_be_bytes_of_regs_push(regs: Seq<u16>, r: u16)
    ensures
        be_bytes_of_regs(regs.push(r)) =~= be_bytes_of_regs(regs) + seq![reg_hi(r), reg_lo(r)],
    decreases regs.len(),
{
    if regs.len() == 0 {
        assert(regs.push(r)[0] == r);
        assert(regs.push(r).drop_first() =~= Seq::<u16>::empty());
        assert(be_bytes_of_regs(regs.push(r)) == seq![reg_hi(r), reg_lo(r)] + be_bytes_of_regs(
            Seq::<u16>::empty(),
        ));
        assert(be_bytes_of_regs(regs.push(r)) =~= be_bytes_of_regs(regs) + seq![
            reg_hi(r),
            reg_lo(r),
        ]);
    } else {
        assert(regs.push(r)[0] == regs[0]);
        assert(regs.push(r).drop_first() =~= regs.drop_first().push(r));
        assert(be_bytes_of_regs(regs.push(r)) == seq![reg_hi(regs[0]), reg_lo(regs[0])]
            + be_bytes_of_regs(regs.drop_first().push(r)));
        lemma_be_bytes_of_regs_push(regs.drop_first(), r);
        assert(be_bytes_of_regs(regs.push(r)) =~= be_bytes_of_regs(regs) + seq![
            reg_hi(r),
            reg_lo(r),
        ]);
    }
}

/// The byte image is twice as long as the register read.
pub proof fn lemma_be_bytes_of_regs_len(regs: Seq<u16>)
    ensures
        be_bytes_of_regs(regs).len() == 2 * regs.len(),
    decreases regs.len(),
{
    if regs.len() == 0 {
    } else {
        lemma_be_bytes_of_regs_len(regs.drop_first());
    }
}

/// Serialises a raw register read into its big-endian byte image.
pub fn regs_to_bytes(regs: &Vec<u16>) -> (bytes: Vec<u8>)
    ensures
        bytes@ =~= be_bytes_of_regs(regs@),
        bytes@.len() == 2 * regs@.len(),
{
    let n = regs.len();
    let mut bytes: Vec<u8> = Vec::new();
    let mut i: usize = 0;
    while i < n
        invariant
            n == regs@.len(),
            i <= n,
            bytes@ =~= be_bytes_of_regs(regs@.take(i as int)),
            bytes@.len() == 2 * i,
        decreases n - i,
    {
        proof {
            assert(regs@.take(i as int + 1) =~= regs@.take(i as int).push(regs@[i as int]));
            lemma_be_bytes_of_regs_push(regs@.take(i as int), regs@[i as int]);
        }
        let r = regs[i];
        bytes.push((r / 256) as u8);
        bytes.push((r % 256) as u8);
        i += 1;
    }
    proof {
        assert(regs@.take(n as int) =~= regs@);
        lemma_be_bytes_of_regs_len(regs@);
    }
    bytes
}

/// Reads a big-endian unsigned value of the given width from the byte image.
fn read_be(bytes: &Vec<u8>, off: usize, width: usize) -> (r: u64)
    requires
        width <= 8,
        off + width <= bytes@.len(),
    ensures
        r as nat == be_val(bytes@.subrange(off as int, off as int + width as int)),
{
    let n = bytes.len();
    let mut acc: u64 = 0;
    let mut j: usize = 0;
    proof {
        assert(bytes@.subrange(off as int, off as int) =~= Seq::<u8>::empty());
    }
    while j < width
        invariant
            width <= 8,
            n == bytes@.len(),
            off + width <= bytes@.len(),
            j <= width,
            acc as nat == be_val(bytes@.subrange(off as int, off as int + j as int)),
            acc < pow256(j as nat),
        decreases width - j,
    {
        proof {
            assert(bytes@.subrange(off as int, off as int + j as int + 1) =~= bytes@.subrange(
                off as int,
                off as int + j as int,
            ).push(bytes@[off as int + j as int]));
            lemma_be_val_push(
                bytes@.subrange(off as int, off as int + j as int),
                bytes@[off as int + j as int],
            );
            lemma_pow256_increases((j + 1) as nat, 8);
            reveal_with_fuel(pow256, 9);
            assert(pow256(8) == 0x1_0000_0000_0000_0000);
            assert(pow256((j + 1) as nat) == 256 * pow256(j as nat));
        }
        acc = acc * 256 + (bytes[off + j] as u64);
        j += 1;
    }
    acc
}

/// Copies the `width` bytes at `off` out of the byte image.
fn take_bytes(bytes: &Vec<u8>, off: usize, width: usize) -> (r: Vec<u8>)
    requires
        off + width <= bytes@.len(),
    ensures
        r@ =~= bytes@.subrange(off as int, off as int + width as int),
{
    let n = bytes.len();
    let mut out: Vec<u8> = Vec::new();
    let mut j: usize = 0;
    while j < width
        invariant
            n == bytes@.len(),
            off + width <= bytes@.len(),
            j <= width,
            out@ =~= bytes@.subrange(off as int, off as int + j as int),
        decreases width - j,
    {
        proof {
            assert(bytes@.subrange(off as int, off as int + j as int + 1) =~= bytes@.subrange(
                off as int,
                off as int + j as int,
            ).push(bytes@[off as int + j as int]));
        }
        out.push(bytes[off + j]);
        j += 1;
    }
    out
}

/// The signed reading of an unsigned value of the given byte width, by
/// two's complement.
pub open spec fn signed_of(u: nat, w: nat) -> int {
    if u < pow256(w) / 2 {
        u as int
    } else {
        u - pow256(w)
    }
}

/// The two's-complement byte pattern of an integer, as an unsigned value.
pub open spec fn twos_complement(v: int, w: nat) -> nat {
    (v % (pow256(w) as int)) as nat
}

/// The supported data point types.
#[derive(Debug, Clone, Copy, PartialEq, Eq, Structural)]
pub enum ModbusDataType {
    Double,
    Float,
    Int32,
    Int16,
    UInt32,
    UInt16,
}

/// How many bytes of the image a data type consumes.
pub open spec fn type_width(t: ModbusDataType) -> nat {
    match t {
        ModbusDataType::Double => 8,
        ModbusDataType::Float => 4,
        ModbusDataType::Int32 => 4,
        ModbusDataType::Int16 => 2,
        ModbusDataType::UInt32 => 4,
        ModbusDataType::UInt16 => 2,
    }
}

/// The decimal text of the 32-bit IEEE float held by four big-endian bytes,
/// as std renders it.
pub uninterp spec fn float32_text(bytes: Seq<u8>) -> Seq<char>;

/// The decimal text of the 64-bit IEEE float held by eight big-endian bytes,
/// as std renders it.
pub uninterp spec fn float64_text(bytes: Seq<u8>) -> Seq<char>;

/// Relies on bytebuffer's big-endian 32-bit float read and on std's float
/// formatting: the text depends on the four bytes alone.
#[verifier::external_body]
fn format_float32(bytes: &Vec<u8>) -> (r: String)
    requires
        bytes@.len() == 4,
    ensures
        r@ == float32_text(bytes@),
{
    let mut buffer = bytebuffer::ByteBuffer::from_bytes(bytes.as_slice());
    match buffer.read_f32() {
        Ok(v) => v.to_string(),
        Err(_) => String::new(),
    }
}

/// Relies on bytebuffer's big-endian 64-bit float read and on std's float
/// formatting: the text depends on the eight bytes alone.
#[verifier::external_body]
fn format_float64(bytes: &Vec<u8>) -> (r: String)
    requires
        bytes@.len() == 8,
    ensures
        r@ == float64_text(bytes@),
{
    let mut buffer = bytebuffer::ByteBuffer::from_bytes(bytes.as_slice());
    match buffer.read_f64() {
        Ok(v) => v.to_string(),
        Err(_) => String::new(),
    }
}

/// The decimal text a reader of the given type extracts at a byte offset of
/// the image.
pub open spec fn decoded_text(t: ModbusDataType, bytes: Seq<u8>, off: int) -> Seq<char> {
    let raw = be_val(bytes.subrange(off, off + type_width(t)));
    match t {
        ModbusDataType::UInt16 => dec_str_nat(raw),
        ModbusDataType::UInt32 => dec_str_nat(raw),
        ModbusDataType::Int16 => dec_str_int(signed_of(raw, 2)),
        ModbusDataType::Int32 => dec_str_int(signed_of(raw, 4)),
        ModbusDataType::Float => float32_text(bytes.subrange(off, off + 4)),
        ModbusDataType::Double => float64_text(bytes.subrange(off, off + 8)),
    }
}

/// Why a reader failed on a raw read.
#[derive(Debug, Clone, Copy, PartialEq, Eq, Structural)]
pub enum DecodeError {
    /// The reader's offset and width fall outside the byte image.
    OutOfRange,
}

/// Describes how to extract one typed scalar from a register block: a byte
/// offset into the block's big-endian image, a redundant register count
/// hint, a data type and the point's key name.
#[derive(Debug, Clone)]
pub struct ModbusDataPointReader {
    pub data_offset: usize,
    pub register_count: usize,
    pub data_type: ModbusDataType,
    pub key_name: String,
}

impl ModbusDataPointReader {
    /// Decodes this reader's scalar out of a raw register read: the read is
    /// serialised big-endian, the scalar at the byte offset is extracted and
    /// rendered as decimal text.  A reader that falls outside the image
    /// fails, and the caller skips the whole group.
    pub fn parse(&self, data: Vec<u16>) -> (r: Result<DataPoint, DecodeError>)
        ensures
            self.data_offset + type_width(self.data_type) <= 2 * data@.len() ==> (match r {
                Ok(p) => p.key@ == self.key_name@ && p.value@ == decoded_text(
                    self.data_type,
                    be_bytes_of_regs(data@),
                    self.data_offset as int,
                ) && p.ts is None,
                Err(_) => false,
            }),
            self.data_offset + type_width(self.data_type) > 2 * data@.len() ==> r == Err::<
                DataPoint,
                DecodeError,
            >(DecodeError::OutOfRange),
    {
        let bytes = regs_to_bytes(&data);
        let width: usize = match self.data_type {
            ModbusDataType::Double => 8,
            ModbusDataType::Float => 4,
            ModbusDataType::Int32 => 4,
            ModbusDataType::Int16 => 2,
            ModbusDataType::UInt32 => 4,
            ModbusDataType::UInt16 => 2,
        };
        if self.data_offset > bytes.len() || width > bytes.len() - self.data_offset {
            return Err(DecodeError::OutOfRange);
        }
        proof {
            reveal_with_fuel(pow256, 5);
        }
        let value: String = match self.data_type {
            ModbusDataType::UInt16 => fmt_u64(read_be(&bytes, self.data_offset, 2)),
            ModbusDataType::UInt32 => fmt_u64(read_be(&bytes, self.data_offset, 4)),
            ModbusDataType::Int16 => {
                let u = read_be(&bytes, self.data_offset, 2);
                proof {
                    lemma_be_val_bound(
                        bytes@.subrange(
                            self.data_offset as int,
                            self.data_offset as int + 2,
                        ),
                    );
                }
                if u >= 32768 {
                    fmt_i64((u as i64) - 65536)
                } else {
                    fmt_i64(u as i64)
                }
            },
            ModbusDataType::Int32 => {
                let u = read_be(&bytes, self.data_offset, 4);
                proof {
                    lemma_be_val_bound(
                        bytes@.subrange(
                            self.data_offset as int,
                            self.data_offset as int + 4,
                        ),
                    );
                }
                if u >= 2147483648 {
                    fmt_i64((u as i64) - 4294967296)
                } else {
                    fmt_i64(u as i64)
                }
            },
            ModbusDataType::Float => {
                let quad = take_bytes(&bytes, self.data_offset, 4);
                format_float32(&quad)
            },
            ModbusDataType::Double => {
                let octet = take_bytes(&bytes, self.data_offset, 8);
                format_float64(&octet)
            },
        };
        Ok(DataPoint { key: self.key_name.clone(), value, ts: None })
    }
}

/// The big-endian byte string of a value, over a given width.
pub open spec fn be_bytes_of(v: nat, w: nat) -> Seq<u8>
    decreases w,
{
    if w == 0 {
        Seq::empty()
    } else {
        be_bytes_of(v / 256, (w - 1) as nat).push((v % 256) as u8)
    }
}

pub proof fn lemma_be_bytes_of_len(v: nat, w: nat)
    ensures
        be_bytes_of(v, w).len() == w,
    decreases w,
{
    if w > 0 {
        lemma_be_bytes_of_len(v / 256, (w - 1) as nat);
    }
}

proof fn lemma_be_val_of_bytes(v: nat, w: nat)
    ensures
        be_val(be_bytes_of(v, w)) == v % pow256(w),
    decreases w,
{
    if w == 0 {
        assert(v as int % 1int == 0) by {
            vstd::arithmetic::div_mod::lemma_mod_bound(v as int, 1int);
        }
    } else {
        lemma_be_val_of_bytes(v / 256, (w - 1) as nat);
        lemma_be_val_push(be_bytes_of(v / 256, (w - 1) as nat), (v % 256) as u8);
        assert(pow256((w - 1) as nat) > 0) by {
            lemma_pow256_increases(0, (w - 1) as nat);
        }
        assert(v as int % (256 * (pow256((w - 1) as nat) as int)) == 256 * ((v as int / 256) % (
        pow256((w - 1) as nat) as int)) + v as int % 256) by {
            vstd::arithmetic::div_mod::lemma_mod_breakdown(
                v as int,
                256,
                pow256((w - 1) as nat) as int,
            );
        }
        assert(pow256(w) == 256 * pow256((w - 1) as nat));
    }
}

/// Encoding a value over a width it fits in and reading the bytes back
/// yields the value.
pub proof fn lemma_be_val_small(v: nat, w: nat)
    requires
        v < pow256(w),
    ensures
        be_val(be_bytes_of(v, w)) == v,
{
    lemma_be_val_of_bytes(v, w);
    vstd::arithmetic::div_mod::lemma_small_mod(v, pow256(w));
}

/// Packing a big-endian byte string into 16-bit registers, two bytes per
/// register with the high byte first.
pub open spec fn regs_of_bytes(b: Seq<u8>) -> Seq<u16>
    decreases b.len(),
{
    if b.len() < 2 {
        Seq::empty()
    } else {
        seq![(b[0] as nat * 256 + b[1] as nat) as u16] + regs_of_bytes(b.skip(2))
    }
}

/// Packing bytes into registers and serialising the registers again gives
/// the bytes back, for any even-length byte string.
pub proof fn lemma_pack_unpack(b: Seq<u8>)
    requires
        b.len() % 2 == 0,
    ensures
        be_bytes_of_regs(regs_of_bytes(b)) =~= b,
    decreases b.len(),
{
    if b.len() == 0 {
    } else {
        let r0: u16 = (b[0] as nat * 256 + b[1] as nat) as u16;
        let rest = regs_of_bytes(b.skip(2));
        assert((seq![r0] + rest)[0] == r0);
        assert((seq![r0] + rest).drop_first() =~= rest);
        assert(be_bytes_of_regs(seq![r0] + rest) == seq![reg_hi(r0), reg_lo(r0)]
            + be_bytes_of_regs(rest));
        assert(b.skip(2).len() % 2 == 0);
        lemma_pack_unpack(b.skip(2));
        assert(r0 as int == b[0] as int * 256 + b[1]);
        assert(reg_hi(r0) == b[0]) by {
            vstd::arithmetic::div_mod::lemma_div_multiples_vanish_fancy(
                b[0] as int,
                b[1] as int,
                256,
            );
            assert(256 * (b[0] as int) + b[1] == b[0] as int * 256 + b[1]);
        }
        assert(reg_lo(r0) == b[1]) by {
            vstd::arithmetic::div_mod::lemma_mod_multiples_vanish(b[0] as int, b[1] as int, 256);
            vstd::arithmetic::div_mod::lemma_small_mod(b[1] as nat, 256);
            assert(256 * (b[0] as int) + b[1] == b[0] as int * 256 + b[1]);
        }
        assert(be_bytes_of_regs(regs_of_bytes(b)) =~= b);
    }
}

/// Decode round-trip for 16-bit unsigned values: encoding the value big-
/// endian, packing into registers and decoding at offset zero yields its
/// decimal text exactly.
pub proof fn lemma_decode_roundtrip_u16(v: u16)
    ensures
        decoded_text(
            ModbusDataType::UInt16,
            be_bytes_of_regs(regs_of_bytes(be_bytes_of(v as nat, 2))),
            0,
        ) == dec_str_nat(v as nat),
{
    let b = be_bytes_of(v as nat, 2);
    lemma_be_bytes_of_len(v as nat, 2);
    lemma_pack_unpack(b);
    let image = be_bytes_of_regs(regs_of_bytes(b));
    assert(image.subrange(0, 2) =~= b);
    reveal_with_fuel(pow256, 3);
    lemma_be_val_small(v as nat, 2);
}

/// Decode round-trip for 32-bit unsigned values.
pub proof fn lemma_decode_roundtrip_u32(v: u32)
    ensures
        decoded_text(
            ModbusDataType::UInt32,
            be_bytes_of_regs(regs_of_bytes(be_bytes_of(v as nat, 4))),
            0,
        ) == dec_str_nat(v as nat),
{
    let b = be_bytes_of(v as nat, 4);
    lemma_be_bytes_of_len(v as nat, 4);
    lemma_pack_unpack(b);
    let image = be_bytes_of_regs(regs_of_bytes(b));
    assert(image.subrange(0, 4) =~= b);
    reveal_with_fuel(pow256, 5);
    lemma_be_val_small(v as nat, 4);
}

proof fn lemma_twos_complement_roundtrip(v: int, w: nat)
    requires
        w > 0,
        -(pow256(w) / 2) <= v < pow256(w) / 2,
        pow256(w) % 2 == 0,
    ensures
        signed_of(twos_complement(v, w), w) == v,
{
    let p = pow256(w) as int;
    assert(p >= 1) by {
        lemma_pow256_increases(0, w);
    }
    if v >= 0 {
        vstd::arithmetic::div_mod::lemma_small_mod(v as nat, pow256(w));
    } else {
        assert((p + v) % p == v % p) by {
            vstd::arithmetic::div_mod::lemma_mod_add_multiples_vanish(v, p);
        }
        assert(0 <= p + v < p);
        vstd::arithmetic::div_mod::lemma_small_mod((p + v) as nat, pow256(w));
        assert(v % p == p + v);
    }
}

/// Decode round-trip for 16-bit signed values: the two's-complement pattern
/// is encoded, packed, and decoded back to the value's decimal text.
pub proof fn lemma_decode_roundtrip_i16(v: i16)
    ensures
        decoded_text(
            ModbusDataType::Int16,
            be_bytes_of_regs(regs_of_bytes(be_bytes_of(twos_complement(v as int, 2), 2))),
            0,
        ) == dec_str_int(v as int),
{
    let u = twos_complement(v as int, 2);
    let b = be_bytes_of(u, 2);
    lemma_be_bytes_of_len(u, 2);
    lemma_pack_unpack(b);
    let image = be_bytes_of_regs(regs_of_bytes(b));
    assert(image.subrange(0, 2) =~= b);
    reveal_with_fuel(pow256, 3);
    assert(u < pow256(2)) by {
        vstd::arithmetic::div_mod::lemma_mod_bound(v as int, pow256(2) as int);
    }
    lemma_be_val_small(u, 2);
    lemma_twos_complement_roundtrip(v as int, 2);
}

/// Decode round-trip for 32-bit signed values.
pub proof fn lemma_decode_roundtrip_i32(v: i32)
    ensures
        decoded_text(
            ModbusDataType::Int32,
            be_bytes_of_regs(regs_of_bytes(be_bytes_of(twos_complement(v as int, 4), 4))),
            0,
        ) == dec_str_int(v as int),
{
    let u = twos_complement(v as int, 4);
    let b = be_bytes_of(u, 4);
    lemma_be_bytes_of_len(u, 4);
    lemma_pack_unpack(b);
    let image = be_bytes_of_regs(regs_of_bytes(b));
    assert(image.subrange(0, 4) =~= b);
    reveal_with_fuel(pow256, 5);
    assert(u < pow256(4)) by {
        vstd::arithmetic::div_mod::lemma_mod_bound(v as int, pow256(4) as int);
    }
    lemma_be_val_small(u, 4);
    lemma_twos_complement_roundtrip(v as int, 4);
}

/// Decode round-trip for 32-bit floats, at the byte level: packing any four
/// bytes into registers and decoding at offset zero renders exactly those
/// bytes' float, so an encoded float value comes back to IEEE precision.
pub proof fn lemma_decode_roundtrip_float32(b: Seq<u8>)
    requires
        b.len() == 4,
    ensures
        decoded_text(ModbusDataType::Float, be_bytes_of_regs(regs_of_bytes(b)), 0)
            == float32_text(b),
{
    lemma_pack_unpack(b);
    assert(be_bytes_of_regs(regs_of_bytes(b)).subrange(0, 4) =~= b);
}

/// Decode round-trip for 64-bit floats, at the byte level.
pub proof fn lemma_decode_roundtrip_float64(b: Seq<u8>)
    requires
        b.len() == 8,
    ensures
        decoded_text(ModbusDataType::Double, be_bytes_of_regs(regs_of_bytes(b)), 0)
            == float64_text(b),
{
    lemma_pack_unpack(b);
    assert(be_bytes_of_regs(regs_of_bytes(b)).subrange(0, 8) =~= b);
}

} // verus!
