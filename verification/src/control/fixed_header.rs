//! The fixed header of every control packet: one packet-type byte followed by
//! the remaining length as a variable-length integer of one to four bytes.

use vstd::prelude::*;

verus! {

use crate::encodable::{Encodable, IoError, sp_u8};
use crate::control::packet_type::{
    PacketType,
    PacketTypeError,
    pt_byte,
    pt_wf,
    sp_packet_type,
};

/// The largest remaining length a fixed header can carry: 2^28 - 1.
pub open spec fn max_remaining_len() -> int {
    0x0FFF_FFFF
}

/// The bytes of a remaining length: seven value bits per byte, least
/// significant group first, high bit set on every byte but the last.
pub open spec fn varint(n: int) -> Seq<u8>
    recommends
        0 <= n <= max_remaining_len(),
    decreases n,
{
    if n < 128 {
        seq![(if n < 0 { 0 } else { n }) as u8]
    } else {
        seq![(128 + n % 128) as u8] + varint(n / 128)
    }
}

/// 128 raised to the `i`-th power.
pub open spec fn pow128(i: int) -> int
    decreases i,
{
    if i <= 0 {
        1
    } else {
        128 * pow128(i - 1)
    }
}

/// What reading remaining-length bytes yields after `i` bytes have already
/// accumulated to `acc`: fails with `MalformedRemainingLength` as soon as a
/// fifth byte is read.
pub open spec fn sp_varint_rec(s: Seq<u8>, pos: int, end: int, i: int, acc: int) -> Result<
    (u32, int),
    FixedHeaderError,
>
    recommends
        0 <= pos <= end <= s.len(),
        0 <= i <= 4,
        0 <= acc < pow128(i),
    decreases 5 - i,
{
    match sp_u8(s, pos, end) {
        Err(e) => Err(FixedHeaderError::IoError(e)),
        Ok((b, p)) => if i >= 4 {
            Err(FixedHeaderError::MalformedRemainingLength)
        } else {
            let acc2 = acc + (b % 128) * pow128(i);
            if b < 128 {
                Ok((acc2 as u32, p))
            } else {
                sp_varint_rec(s, p, end, i + 1, acc2)
            }
        },
    }
}

/// What reading a remaining length from `s[pos..end]` yields, for every input.
pub open spec fn sp_remaining_len(s: Seq<u8>, pos: int, end: int) -> Result<
    (u32, int),
    FixedHeaderError,
>
    recommends
        0 <= pos <= end <= s.len(),
{
    sp_varint_rec(s, pos, end, 0, 0)
}

/// What parsing a whole fixed header yields: the packet-type byte, then the
/// remaining length, then the type byte held against the flag table.
pub open spec fn sp_fixed_header(s: Seq<u8>, pos: int, end: int) -> Result<
    (FixedHeader, int),
    FixedHeaderError,
>
    recommends
        0 <= pos <= end <= s.len(),
{
    match sp_u8(s, pos, end) {
        Err(e) => Err(FixedHeaderError::IoError(e)),
        Ok((tv, p)) => match sp_remaining_len(s, p, end) {
            Err(e) => Err(e),
            Ok((rl, p2)) => match sp_packet_type(tv) {
                Ok(pt) => Ok((FixedHeader { packet_type: pt, remaining_length: rl }, p2)),
                Err(PacketTypeError::ReservedType(ty, _)) => Err(
                    FixedHeaderError::ReservedType(ty, rl),
                ),
                Err(e) => Err(FixedHeaderError::PacketTypeError(e)),
            },
        },
    }
}

/// Fixed header for each control packet: packet type and remaining length.
///
/// The remaining length is the number of bytes within the current packet after
/// the fixed header, covering the variable header and the payload.
#[derive(Debug, Clone, Copy, Eq, PartialEq, Structural)]
pub struct FixedHeader {
    /// Packet type
    pub packet_type: PacketType,
    /// Byte count of variable header plus payload.
    pub remaining_length: u32,
}

impl FixedHeader {
    /// A fixed header is well formed when its packet type is and its remaining
    /// length fits in 28 bits.
    pub open spec fn wf(self) -> bool {
        pt_wf(self.packet_type) && self.remaining_length <= max_remaining_len()
    }

    pub fn new(packet_type: PacketType, remaining_length: u32) -> (r: FixedHeader)
        requires
            remaining_length <= max_remaining_len(),
        ensures
            r == (FixedHeader { packet_type, remaining_length }),
    {
        FixedHeader { packet_type, remaining_length }
    }

    /// Parses a fixed header; `ReservedType` carries the offending type nibble
    /// and the parsed remaining length so the caller can drain and diagnose.
    pub fn decode(buf: &Vec<u8>, pos: usize) -> (r: Result<(FixedHeader, usize), FixedHeaderError>)
        requires
            pos <= buf@.len(),
        ensures
            match r {
                Ok((h, p)) => sp_fixed_header(buf@, pos as int, buf@.len() as int) == Ok::<
                    (FixedHeader, int),
                    FixedHeaderError,
                >((h, p as int)) && h.wf() && pos < p <= buf@.len(),
                Err(e) => sp_fixed_header(buf@, pos as int, buf@.len() as int) == Err::<
                    (FixedHeader, int),
                    FixedHeaderError,
                >(e),
            },
    {
        let end = buf.len();
        let type_val = match crate::encodable::read_u8(buf, pos, end) {
            Ok((b, _)) => b,
            Err(e) => {
                return Err(FixedHeaderError::IoError(e));
            },
        };
        let (remaining_len, p2) = match read_remaining_len(buf, pos + 1, end) {
            Ok(v) => v,
            Err(e) => {
                return Err(e);
            },
        };
        match PacketType::from_u8(type_val) {
            Ok(packet_type) => Ok(
                (FixedHeader { packet_type, remaining_length: remaining_len }, p2),
            ),
            Err(PacketTypeError::ReservedType(ty, _)) => Err(
                FixedHeaderError::ReservedType(ty, remaining_len),
            ),
            Err(err) => Err(FixedHeaderError::PacketTypeError(err)),
        }
    }
}

/// Reads a remaining length; fails with `MalformedRemainingLength` exactly when
/// a fifth byte would be needed.
pub fn read_remaining_len(buf: &Vec<u8>, pos: usize, end: usize) -> (r: Result<
    (u32, usize),
    FixedHeaderError,
>)
    requires
        pos <= end <= buf@.len(),
    ensures
        match r {
            Ok((v, p)) => sp_remaining_len(buf@, pos as int, end as int) == Ok::<
                (u32, int),
                FixedHeaderError,
            >((v, p as int)) && v <= max_remaining_len() && pos < p <= end,
            Err(e) => sp_remaining_len(buf@, pos as int, end as int) == Err::<
                (u32, int),
                FixedHeaderError,
            >(e),
        },
{
    let mut cur: u32 = 0;
    let mut mul: u32 = 1;
    let mut i: usize = 0;
    let mut p: usize = pos;
    loop
        invariant
            pos <= p <= end <= buf@.len(),
            0 <= i <= 4,
            mul == pow128(i as int),
            i == 0 ==> mul == 1,
            i == 1 ==> mul == 128,
            i == 2 ==> mul == 16384,
            i == 3 ==> mul == 2097152,
            i == 4 ==> mul == 0x1000_0000,
            0 <= cur < mul,
            pos < p || i == 0,
            sp_varint_rec(buf@, p as int, end as int, i as int, cur as int) == sp_remaining_len(
                buf@,
                pos as int,
                end as int,
            ),
        decreases 5 - i,
    {
        let b = match crate::encodable::read_u8(buf, p, end) {
            Ok((b, _)) => b,
            Err(e) => {
                return Err(FixedHeaderError::IoError(e));
            },
        };
        if i >= 4 {
            return Err(FixedHeaderError::MalformedRemainingLength);
        }
        proof {
            assert((b % 128) * pow128(i as int) <= 127 * pow128(i as int)) by (nonlinear_arith)
                requires
                    b % 128 <= 127,
                    pow128(i as int) > 0,
            ;
            assert(pow128(i as int) > 0);
        }
        cur = cur + ((b % 128) as u32) * mul;
        p = p + 1;
        if b < 128 {
            assert(cur <= max_remaining_len());
            return Ok((cur, p));
        }
        i = i + 1;
        proof {
            assert(pow128(i as int) == 128 * pow128(i as int - 1));
            assert(cur < 128 * mul) by (nonlinear_arith)
                requires
                    cur < mul + 127 * mul,
            ;
        }
        mul = mul * 128;
    }
}

/// Parsing errors for the fixed header.
#[derive(Debug, PartialEq, Eq, Clone, Copy)]
pub enum FixedHeaderError {
    /// A fifth remaining-length byte would be needed.
    MalformedRemainingLength,
    /// Reserved packet type 0 or 15, with the parsed remaining length.
    ReservedType(u8, u32),
    /// The flag nibble is not acceptable for the packet type.
    PacketTypeError(PacketTypeError),
    /// The input ended inside the header.
    IoError(IoError),
}

impl Encodable for FixedHeader {
    open spec fn enc(&self) -> Seq<u8> {
        seq![pt_byte(self.packet_type)] + varint(self.remaining_length as int)
    }

    open spec fn enc_wf(&self) -> bool {
        self.wf()
    }

    fn encode(&self, buf: &mut Vec<u8>) {
        crate::encodable::write_u8(buf, self.packet_type.to_u8());
        write_varint(buf, self.remaining_length);
        assert(buf@ =~= old(buf)@ + self.enc());
    }

    fn encoded_length(&self) -> (n: u32) {
        proof {
            lemma_varint_len(self.remaining_length as int);
        }
        let rem_size: u32 = if self.remaining_length >= 2_097_152 {
            4
        } else if self.remaining_length >= 16_384 {
            3
        } else if self.remaining_length >= 128 {
            2
        } else {
            1
        };
        1 + rem_size
    }
}

/// Appends the remaining-length bytes of `n`.
pub fn write_varint(buf: &mut Vec<u8>, n: u32)
    requires
        n <= max_remaining_len(),
    ensures
        final(buf)@ == old(buf)@ + varint(n as int),
    decreases n,
{
    if n < 128 {
        buf.push(n as u8);
        assert(buf@ =~= old(buf)@ + varint(n as int));
    } else {
        buf.push((128 + n % 128) as u8);
        write_varint(buf, n / 128);
        assert(buf@ =~= old(buf)@ + varint(n as int));
    }
}

/// The remaining-length bytes of `n` number 1, 2, 3 or 4 as `n` falls below
/// 128, 16384, 2097152 or 2^28.
pub proof fn lemma_varint_len(n: int)
    requires
        0 <= n <= max_remaining_len(),
    ensures
        varint(n).len() == if n < 128 {
            1int
        } else if n < 16_384 {
            2int
        } else if n < 2_097_152 {
            3int
        } else {
            4int
        },
        1 <= varint(n).len() <= 4,
    decreases n,
{
    if n >= 128 {
        lemma_varint_len(n / 128);
    }
}

/// Remaining-length bytes parse back to the value they encode, whatever
/// follows them and wherever they stand.
pub proof fn lemma_sp_varint_of_enc(n: int, s: Seq<u8>, pos: int, end: int, i: int, acc: int)
    requires
        0 <= i <= 3,
        0 <= n < pow128(4 - i),
        n <= max_remaining_len(),
        0 <= acc,
        acc + n * pow128(i) <= max_remaining_len(),
        0 <= pos,
        pos + varint(n).len() <= end <= s.len(),
        s.subrange(pos, pos + varint(n).len()) == varint(n),
    ensures
        sp_varint_rec(s, pos, end, i, acc) == Ok::<(u32, int), FixedHeaderError>(
            ((acc + n * pow128(i)) as u32, pos + varint(n).len()),
        ),
    decreases 4 - i,
{
    let w = varint(n);
    assert(s[pos] == w[0]);
    if n < 128 {
        assert(w[0] == n as u8);
        assert(n * pow128(i) == (n % 128) * pow128(i));
    } else {
        assert(w[0] == (128 + n % 128) as u8);
        let rest = varint(n / 128);
        assert(w =~= seq![(128 + n % 128) as u8] + rest);
        assert(s.subrange(pos + 1, pos + 1 + rest.len()) =~= rest) by {
            assert forall|j: int| 0 <= j < rest.len() implies s.subrange(
                pos + 1,
                pos + 1 + rest.len(),
            )[j] == rest[j] by {
                assert(s.subrange(pos, pos + w.len())[j + 1] == w[j + 1]);
            }
        }
        assert(n / 128 < pow128(4 - (i + 1))) by (nonlinear_arith)
            requires
                n < pow128(4 - i),
                pow128(4 - i) == 128 * pow128(3 - i),
        ;
        let acc2 = acc + (n % 128) * pow128(i);
        vstd::arithmetic::div_mod::lemma_fundamental_div_mod(n, 128);
        assert(acc2 + (n / 128) * pow128(i + 1) == acc + n * pow128(i)) by (nonlinear_arith)
            requires
                acc2 == acc + (n % 128) * pow128(i),
                pow128(i + 1) == 128 * pow128(i),
                n == 128 * (n / 128) + n % 128,
        ;
        assert(0 <= (n / 128) * pow128(i + 1)) by (nonlinear_arith)
            requires
                n / 128 >= 0,
                pow128(i + 1) > 0,
        ;
        lemma_sp_varint_of_enc(n / 128, s, pos + 1, end, i + 1, acc2);
    }
}

/// A remaining-length read fails only by running out of input or by needing
/// a fifth byte, never with a type error.
pub proof fn lemma_sp_varint_err_kind(s: Seq<u8>, pos: int, end: int, i: int, acc: int)
    ensures
        sp_varint_rec(s, pos, end, i, acc) matches Err(e) ==> e
            == FixedHeaderError::MalformedRemainingLength || e matches FixedHeaderError::IoError(_),
    decreases 5 - i,
{
    if i < 4 {
        match sp_u8(s, pos, end) {
            Ok((b, p)) => {
                if b >= 128 {
                    lemma_sp_varint_err_kind(s, p, end, i + 1, acc + (b % 128) * pow128(i));
                }
            },
            Err(_) => {},
        }
    }
}

/// Every remaining-length byte but the last carries the continuation bit;
/// the last never does.
pub proof fn lemma_varint_continuation(n: int)
    requires
        0 <= n <= max_remaining_len(),
    ensures
        forall|j: int| 0 <= j < varint(n).len() - 1 ==> #[trigger] varint(n)[j] >= 128,
        varint(n)[varint(n).len() - 1] < 128,
    decreases n,
{
    if n >= 128 {
        lemma_varint_continuation(n / 128);
        assert forall|j: int| 0 <= j < varint(n).len() - 1 implies #[trigger] varint(n)[j]
            >= 128 by {
            if j > 0 {
                assert(varint(n / 128)[j - 1] >= 128);
            }
        }
        assert(varint(n)[varint(n).len() - 1] == varint(n / 128)[varint(n / 128).len() - 1]);
    }
}

/// A remaining-length read over nothing but continuation bytes never
/// completes: it runs out of input or needs a fifth byte, and with no more
/// than four bytes in all it always runs out of input.
pub proof fn lemma_sp_varint_all_cont_errs(s: Seq<u8>, pos: int, end: int, i: int, acc: int)
    requires
        0 <= pos <= end <= s.len(),
        forall|j: int| pos <= j < end ==> #[trigger] s[j] >= 128,
    ensures
        sp_varint_rec(s, pos, end, i, acc) is Err,
        end - pos + i <= 4 ==> sp_varint_rec(s, pos, end, i, acc) == Err::<
            (u32, int),
            FixedHeaderError,
        >(FixedHeaderError::IoError(IoError::UnexpectedEof)),
    decreases end - pos,
{
    if pos < end && i < 4 {
        lemma_sp_varint_all_cont_errs(s, pos + 1, end, i + 1, acc + (s[pos] % 128) * pow128(i));
    }
}

/// Four continuation bytes in a row make a remaining length fail with
/// `MalformedRemainingLength`, whatever the fifth byte holds.
pub proof fn lemma_sp_varint_five_bytes_fails(s: Seq<u8>, pos: int, end: int)
    requires
        0 <= pos,
        pos + 5 <= end <= s.len(),
        forall|j: int| 0 <= j < 4 ==> #[trigger] s[pos + j] >= 128,
    ensures
        sp_remaining_len(s, pos, end) == Err::<(u32, int), FixedHeaderError>(
            FixedHeaderError::MalformedRemainingLength,
        ),
{
    reveal_with_fuel(sp_varint_rec, 6);
    assert(s[pos + 0] >= 128);
    assert(s[pos + 1] >= 128);
    assert(s[pos + 2] >= 128);
    assert(s[pos + 3] >= 128);
}

/// A well-formed fixed header decodes back to itself from its own encoding,
/// whatever bytes follow it.
pub proof fn lemma_sp_fixed_header_of_enc(h: FixedHeader, s: Seq<u8>, pos: int, end: int)
    requires
        h.wf(),
        0 <= pos,
        pos + h.enc().len() <= end <= s.len(),
        s.subrange(pos, pos + h.enc().len()) == h.enc(),
    ensures
        sp_fixed_header(s, pos, end) == Ok::<(FixedHeader, int), FixedHeaderError>(
            (h, pos + h.enc().len()),
        ),
{
    let w = h.enc();
    let rl = h.remaining_length as int;
    assert(s[pos] == w[0]);
    assert(w[0] == pt_byte(h.packet_type));
    lemma_varint_len(rl);
    assert(s.subrange(pos + 1, pos + 1 + varint(rl).len()) =~= varint(rl)) by {
        assert forall|j: int| 0 <= j < varint(rl).len() implies s.subrange(
            pos + 1,
            pos + 1 + varint(rl).len(),
        )[j] == varint(rl)[j] by {
            assert(s.subrange(pos, pos + w.len())[j + 1] == w[j + 1]);
        }
    }
    assert(pow128(0) == 1);
    assert(pow128(1) == 128);
    assert(pow128(2) == 16384);
    assert(pow128(3) == 2097152);
    assert(pow128(4) == 0x1000_0000);
    lemma_sp_varint_of_enc(rl, s, pos + 1, end, 0, 0);
    crate::control::packet_type::lemma_packet_type_roundtrip(h.packet_type);
}

} // verus!
