//! Modbus RTU framing for the read-holding-registers request: CRC-16
//! checksums, outgoing request frames, the frame-length oracle used by the
//! two-phase read, and response validation.

use vstd::prelude::*;

use crate::codec::reg_hi;
use crate::codec::reg_lo;
use crate::codec::regs_of_bytes;

verus! {

/// One shift step of the CRC-16 with the Modbus polynomial: the register
/// moves right one bit and is folded with 0xA001 when a one bit falls out.
pub open spec fn crc16_shift(crc: u16) -> u16 {
    if crc & 1 == 1 {
        (crc >> 1) ^ 0xA001
    } else {
        crc >> 1
    }
}

/// The shift step applied a number of times.
pub open spec fn crc16_bits(crc: u16, n: nat) -> u16
    decreases n,
{
    if n == 0 {
        crc
    } else {
        crc16_bits(crc16_shift(crc), (n - 1) as nat)
    }
}

/// One byte folded into the checksum: an xor into the low byte, then eight
/// shift steps.
pub open spec fn crc16_add_byte(crc: u16, b: u8) -> u16 {
    crc16_bits(crc ^ (b as u16), 8)
}

/// The checksum register after folding in a byte string.
pub open spec fn crc16_over(crc: u16, bytes: Seq<u8>) -> u16
    decreases bytes.len(),
{
    if bytes.len() == 0 {
        crc
    } else {
        crc16_over(crc16_add_byte(crc, bytes[0]), bytes.drop_first())
    }
}

/// The Modbus CRC-16 of a byte string: initial value 0xFFFF, polynomial
/// 0xA001, least significant bit first.
pub open spec fn crc16(bytes: Seq<u8>) -> u16 {
    crc16_over(0xFFFF, bytes)
}

proof fn lemma_crc16_over_push(crc: u16, bytes: Seq<u8>, b: u8)
    ensures
        crc16_over(crc, bytes.push(b)) == crc16_add_byte(crc16_over(crc, bytes), b),
    decreases bytes.len(),
{
    if bytes.len() == 0 {
        assert(bytes.push(b)[0] == b);
        assert(bytes.push(b).drop_first() =~= Seq::<u8>::empty());
        assert(crc16_over(crc, bytes.push(b)) == crc16_over(
            crc16_add_byte(crc, b),
            Seq::<u8>::empty(),
        ));
        assert(crc16_over(crc, bytes) == crc);
    } else {
        assert(bytes.push(b)[0] == bytes[0]);
        assert(bytes.push(b).drop_first() =~= bytes.drop_first().push(b));
        assert(crc16_over(crc, bytes.push(b)) == crc16_over(
            crc16_add_byte(crc, bytes[0]),
            bytes.drop_first().push(b),
        ));
        lemma_crc16_over_push(crc16_add_byte(crc, bytes[0]), bytes.drop_first(), b);
        assert(crc16_over(crc, bytes) == crc16_over(
            crc16_add_byte(crc, bytes[0]),
            bytes.drop_first(),
        ));
    }
}

/// Computes the Modbus CRC-16 over the first `n` bytes.
pub fn crc16_compute(bytes: &Vec<u8>, n: usize) -> (r: u16)
    requires
        n <= bytes@.len(),
    ensures
        r == crc16(bytes@.take(n as int)),
{
    let len = bytes.len();
    let mut crc: u16 = 0xFFFF;
    let mut i: usize = 0;
    proof {
        assert(bytes@.take(0) =~= Seq::<u8>::empty());
    }
    while i < n
        invariant
            n <= len,
            len == bytes@.len(),
            i <= n,
            crc == crc16(bytes@.take(i as int)),
        decreases n - i,
    {
        proof {
            assert(bytes@.take(i as int + 1) =~= bytes@.take(i as int).push(bytes@[i as int]));
            lemma_crc16_over_push(0xFFFF, bytes@.take(i as int), bytes@[i as int]);
        }
        let b = bytes[i];
        let mut c: u16 = crc ^ (b as u16);
        let mut j: usize = 0;
        while j < 8
            invariant
                j <= 8,
                c == crc16_bits(crc ^ (b as u16), j as nat),
            decreases 8 - j,
        {
            proof {
                assert(crc16_bits(crc ^ (b as u16), j as nat + 1) == crc16_bits(
                    crc16_shift(crc16_bits(crc ^ (b as u16), j as nat)),
                    0,
                )) by {
                    lemma_crc16_bits_unfold_back(crc ^ (b as u16), j as nat);
                }
            }
            if c & 1 == 1 {
                c = (c >> 1) ^ 0xA001;
            } else {
                c = c >> 1;
            }
            j += 1;
        }
        crc = c;
        i += 1;
    }
    crc
}

proof fn lemma_crc16_bits_unfold_back(crc: u16, n: nat)
    ensures
        crc16_bits(crc, n + 1) == crc16_shift(crc16_bits(crc, n)),
    decreases n,
{
    if n == 0 {
        assert(crc16_bits(crc, 1) == crc16_bits(crc16_shift(crc), 0));
        assert(crc16_bits(crc16_shift(crc), 0) == crc16_shift(crc));
    } else {
        assert(crc16_bits(crc, n + 1) == crc16_bits(crc16_shift(crc), n));
        lemma_crc16_bits_unfold_back(crc16_shift(crc), (n - 1) as nat);
        assert(crc16_bits(crc, n) == crc16_bits(crc16_shift(crc), (n - 1) as nat));
    }
}

/// The body of a read-holding-registers request: unit id, function three,
/// then the starting address and the register count, each high byte first.
pub open spec fn read_holdings_body(unit: u8, addr: u16, count: u16) -> Seq<u8> {
    seq![unit, 3u8, reg_hi(addr), reg_lo(addr), reg_hi(count), reg_lo(count)]
}

/// A whole outgoing request frame: the body followed by its CRC-16, low
/// byte first.
pub open spec fn read_holdings_request(unit: u8, addr: u16, count: u16) -> Seq<u8> {
    let body = read_holdings_body(unit, addr, count);
    body + seq![reg_lo(crc16(body)), reg_hi(crc16(body))]
}

/// Builds the outgoing read-holding-registers frame for one register group.
pub fn build_read_holdings(unit: u8, addr: u16, count: u16) -> (r: Vec<u8>)
    ensures
        r@ =~= read_holdings_request(unit, addr, count),
{
    let mut frame: Vec<u8> = Vec::new();
    frame.push(unit);
    frame.push(3u8);
    frame.push((addr / 256) as u8);
    frame.push((addr % 256) as u8);
    frame.push((count / 256) as u8);
    frame.push((count % 256) as u8);
    proof {
        assert(frame@ =~= read_holdings_body(unit, addr, count));
        assert(frame@.take(6) =~= frame@);
    }
    let crc = crc16_compute(&frame, 6);
    frame.push((crc % 256) as u8);
    frame.push((crc / 256) as u8);
    frame
}

/// The total frame length derived from a response prefix: an exception
/// response is five bytes, a data response is the three-byte header, the
/// payload named by the byte count, and two CRC bytes.
pub open spec fn response_frame_len(prefix: Seq<u8>) -> int {
    if prefix[1] & 0x80 != 0 {
        5
    } else {
        5 + prefix[2]
    }
}

/// Derives the total frame length from the fixed prefix already read, so
/// the remainder of a long response can be pulled before validation.
pub fn guess_frame_len(prefix: &Vec<u8>) -> (r: usize)
    requires
        prefix@.len() >= 3,
    ensures
        r == response_frame_len(prefix@),
{
    if prefix[1] & 0x80 != 0 {
        5
    } else {
        5 + (prefix[2] as usize)
    }
}

/// Why a response frame was rejected, in the order the checks run.
#[derive(Debug, Clone, Copy, PartialEq, Eq, Structural)]
pub enum FrameError {
    /// Shorter than the smallest well-formed frame.
    TooShort,
    /// The frame answers another unit id.
    UnitMismatch,
    /// The device answered with the exception bit set.
    ExceptionResponse,
    /// The function code is not read-holding-registers.
    UnexpectedFunction,
    /// The byte count disagrees with the frame length or is odd.
    LengthMismatch,
    /// The trailing checksum does not match the frame.
    CrcMismatch,
}

/// The checksum trailing a frame matches its content.
pub open spec fn frame_crc_ok(f: Seq<u8>) -> bool {
    let c = crc16(f.take(f.len() - 2));
    f[f.len() - 2] == reg_lo(c) && f[f.len() - 1] == reg_hi(c)
}

/// A well-formed function-three response for the given unit: long enough,
/// the right unit and function, a consistent even byte count, and a valid
/// checksum.
pub open spec fn wellformed_response(unit: u8, f: Seq<u8>) -> bool {
    &&& f.len() >= 5
    &&& f[0] == unit
    &&& f[1] == 3
    &&& f[2] as int == f.len() - 5
    &&& f[2] % 2 == 0
    &&& frame_crc_ok(f)
}

/// The first check a malformed response fails.
pub open spec fn response_error(unit: u8, f: Seq<u8>) -> FrameError {
    if f.len() < 5 {
        FrameError::TooShort
    } else if f[0] != unit {
        FrameError::UnitMismatch
    } else if f[1] & 0x80 != 0 {
        FrameError::ExceptionResponse
    } else if f[1] != 3 {
        FrameError::UnexpectedFunction
    } else if f[2] as int != f.len() - 5 || f[2] % 2 != 0 {
        FrameError::LengthMismatch
    } else {
        FrameError::CrcMismatch
    }
}

/// The raw register read held by a well-formed response: its payload bytes
/// packed into 16-bit words, big-endian.
pub open spec fn response_registers(f: Seq<u8>) -> Seq<u16> {
    regs_of_bytes(f.subrange(3, 3 + f[2]))
}

pub proof fn lemma_regs_of_bytes_len(b: Seq<u8>)
    requires
        b.len() % 2 == 0,
    ensures
        regs_of_bytes(b).len() == b.len() / 2,
    decreases b.len(),
{
    if b.len() >= 2 {
        lemma_regs_of_bytes_len(b.skip(2));
    }
}

proof fn lemma_regs_of_bytes_index(b: Seq<u8>, k: int)
    requires
        b.len() % 2 == 0,
        0 <= k < b.len() / 2,
    ensures
        regs_of_bytes(b).len() == b.len() / 2,
        regs_of_bytes(b)[k] == (b[2 * k] as nat * 256 + b[2 * k + 1] as nat) as u16,
    decreases k,
{
    lemma_regs_of_bytes_len(b);
    if k == 0 {
    } else {
        lemma_regs_of_bytes_index(b.skip(2), k - 1);
        assert(regs_of_bytes(b)[k] == regs_of_bytes(b.skip(2))[k - 1]);
        assert(b.skip(2)[2 * (k - 1)] == b[2 * k]);
        assert(b.skip(2)[2 * (k - 1) + 1] == b[2 * k + 1]);
    }
}

/// Validates one function-three response frame and extracts the raw
/// register read: a frame that fails any check is rejected with the first
/// failing check, and the caller skips the register group.
pub fn parse_read_holdings_response(unit: u8, frame: &Vec<u8>) -> (r: Result<Vec<u16>, FrameError>)
    ensures
        wellformed_response(unit, frame@) ==> (match r {
            Ok(regs) => regs@ =~= response_registers(frame@),
            Err(_) => false,
        }),
        !wellformed_response(unit, frame@) ==> r == Err::<Vec<u16>, FrameError>(
            response_error(unit, frame@),
        ),
{
    let len = frame.len();
    if len < 5 {
        return Err(FrameError::TooShort);
    }
    if frame[0] != unit {
        return Err(FrameError::UnitMismatch);
    }
    if frame[1] & 0x80 != 0 {
        proof {
            assert((3u8 & 0x80u8) == 0) by (bit_vector);
        }
        return Err(FrameError::ExceptionResponse);
    }
    if frame[1] != 3 {
        return Err(FrameError::UnexpectedFunction);
    }
    let count = frame[2] as usize;
    if count != len - 5 || count % 2 != 0 {
        return Err(FrameError::LengthMismatch);
    }
    let crc = crc16_compute(frame, len - 2);
    if frame[len - 2] != (crc % 256) as u8 || frame[len - 1] != (crc / 256) as u8 {
        return Err(FrameError::CrcMismatch);
    }
    let ghost payload = frame@.subrange(3, 3 + count as int);
    proof {
        assert(payload.len() % 2 == 0);
        lemma_regs_of_bytes_len(payload);
    }
    let mut regs: Vec<u16> = Vec::new();
    let half = count / 2;
    let mut i: usize = 0;
    while i < half
        invariant
            len == frame@.len(),
            len >= 5,
            count == len - 5,
            count % 2 == 0,
            half == count / 2,
            payload == frame@.subrange(3, 3 + count as int),
            payload.len() == count,
            regs_of_bytes(payload).len() == half,
            i <= half,
            regs@.len() == i,
            forall|j: int| 0 <= j < i ==> regs@[j] == regs_of_bytes(payload)[j],
        decreases half - i,
    {
        let hi = frame[3 + 2 * i];
        let lo = frame[4 + 2 * i];
        let word: u16 = (hi as u16) * 256 + (lo as u16);
        proof {
            lemma_regs_of_bytes_index(payload, i as int);
            assert(payload[2 * i as int] == frame@[3 + 2 * i as int]);
            assert(payload[2 * i as int + 1] == frame@[4 + 2 * i as int]);
        }
        regs.push(word);
        i += 1;
    }
    proof {
        assert(regs@ =~= regs_of_bytes(payload));
    }
    Ok(regs)
}

} // verus!
