//! Byte-level primitives shared by every packet codec: big-endian integers,
//! length-prefixed byte blobs and UTF-8 strings, together with the spec-level
//! encoders and parsers that the contracts of the whole crate are stated over.

use vstd::prelude::*;

verus! {

use vstd::utf8::{valid_utf8, decode_utf8, encode_utf8};
use vstd::arithmetic::div_mod::lemma_fundamental_div_mod;
use vstd::slice::slice_to_vec;

/// Reading from a byte buffer can only fail by running out of input.
#[derive(Debug, Clone, Copy, PartialEq, Eq)]
pub enum IoError {
    UnexpectedEof,
}

/// Reading a length-prefixed UTF-8 string can also fail on malformed bytes.
#[derive(Debug, Clone, Copy, PartialEq, Eq)]
pub enum StringReadError {
    UnexpectedEof,
    InvalidUtf8,
}

/// Big-endian bytes of a 16-bit integer.
pub open spec fn be_u16(v: u16) -> Seq<u8> {
    seq![(v / 256) as u8, (v % 256) as u8]
}

/// The 16-bit big-endian value stored at `s[i]`, `s[i + 1]`.
pub open spec fn be_val(s: Seq<u8>, i: int) -> u16
    recommends
        0 <= i,
        i + 2 <= s.len(),
{
    (s[i] * 256 + s[i + 1]) as u16
}

/// Wire form of a length-prefixed byte blob (16-bit big-endian length, then the bytes).
pub open spec fn varbytes_enc(b: Seq<u8>) -> Seq<u8>
    recommends
        b.len() <= 65535,
{
    be_u16(b.len() as u16) + b
}

/// Wire form of a length-prefixed UTF-8 string.
pub open spec fn string_enc(cs: Seq<char>) -> Seq<u8>
    recommends
        encode_utf8(cs).len() <= 65535,
{
    varbytes_enc(encode_utf8(cs))
}

/// Spec parser for one byte out of `s[pos..end]`.
pub open spec fn sp_u8(s: Seq<u8>, pos: int, end: int) -> Result<(u8, int), IoError>
    recommends
        0 <= pos <= end <= s.len(),
{
    if pos + 1 <= end {
        Ok((s[pos], pos + 1))
    } else {
        Err(IoError::UnexpectedEof)
    }
}

/// Spec parser for a 16-bit big-endian integer out of `s[pos..end]`.
pub open spec fn sp_u16(s: Seq<u8>, pos: int, end: int) -> Result<(u16, int), IoError>
    recommends
        0 <= pos <= end <= s.len(),
{
    if pos + 2 <= end {
        Ok((be_val(s, pos), pos + 2))
    } else {
        Err(IoError::UnexpectedEof)
    }
}

/// Spec parser for exactly `n` raw bytes out of `s[pos..end]`.
pub open spec fn sp_bytes(s: Seq<u8>, pos: int, end: int, n: int) -> Result<(Seq<u8>, int), IoError>
    recommends
        0 <= pos <= end <= s.len(),
        0 <= n,
{
    if pos + n <= end {
        Ok((s.subrange(pos, pos + n), pos + n))
    } else {
        Err(IoError::UnexpectedEof)
    }
}

/// Spec parser for a length-prefixed byte blob.
pub open spec fn sp_varbytes(s: Seq<u8>, pos: int, end: int) -> Result<(Seq<u8>, int), IoError>
    recommends
        0 <= pos <= end <= s.len(),
{
    match sp_u16(s, pos, end) {
        Ok((n, p)) => sp_bytes(s, p, end, n as int),
        Err(e) => Err(e),
    }
}

/// Spec parser for a length-prefixed UTF-8 string, yielding its characters.
pub open spec fn sp_string(s: Seq<u8>, pos: int, end: int) -> Result<
    (Seq<char>, int),
    StringReadError,
>
    recommends
        0 <= pos <= end <= s.len(),
{
    match sp_varbytes(s, pos, end) {
        Ok((b, p)) => if valid_utf8(b) {
            Ok((decode_utf8(b), p))
        } else {
            Err(StringReadError::InvalidUtf8)
        },
        Err(_) => Err(StringReadError::UnexpectedEof),
    }
}

/// A value with a known wire form. `enc` is the exact byte string that
/// `encode` appends, defined whenever `enc_wf` holds.
pub trait Encodable {
    /// The wire bytes of this value.
    spec fn enc(&self) -> Seq<u8>;

    /// When the value fits the wire limits (string and blob lengths, remaining length).
    spec fn enc_wf(&self) -> bool;

    /// Appends the wire bytes of `self` to `buf`.
    fn encode(&self, buf: &mut Vec<u8>)
        requires
            self.enc_wf(),
        ensures
            final(buf)@ == old(buf)@ + self.enc(),
    ;

    /// Length in bytes of the wire form, without writing it.
    fn encoded_length(&self) -> (n: u32)
        requires
            self.enc_wf(),
        ensures
            n == self.enc().len(),
    ;
}

/// A value that can be read back from a byte buffer. The exact contract of
/// each decoder is stated on the inherent method the implementation forwards to.
pub trait Decodable: Sized {
    type Error;

    /// Reads one value starting at `buf[pos]`, returning it with the position
    /// just past the bytes consumed.
    fn decode(buf: &Vec<u8>, pos: usize) -> Result<(Self, usize), Self::Error>
        requires
            pos <= buf@.len(),
    ;
}

pub fn write_u8(buf: &mut Vec<u8>, v: u8)
    ensures
        final(buf)@ == old(buf)@ + seq![v],
{
    buf.push(v);
    assert(buf@ =~= old(buf)@ + seq![v]);
}

pub fn write_u16(buf: &mut Vec<u8>, v: u16)
    ensures
        final(buf)@ == old(buf)@ + be_u16(v),
{
    buf.push((v / 256) as u8);
    buf.push((v % 256) as u8);
    assert(buf@ =~= old(buf)@ + be_u16(v));
}

pub fn write_bytes(buf: &mut Vec<u8>, b: &Vec<u8>)
    ensures
        final(buf)@ == old(buf)@ + b@,
{
    buf.extend_from_slice(b.as_slice());
    assert(buf@ =~= old(buf)@ + b@);
}

pub fn write_varbytes(buf: &mut Vec<u8>, b: &Vec<u8>)
    requires
        b@.len() <= 65535,
    ensures
        final(buf)@ == old(buf)@ + varbytes_enc(b@),
{
    write_u16(buf, b.len() as u16);
    write_bytes(buf, b);
    assert(buf@ =~= old(buf)@ + varbytes_enc(b@));
}

pub fn write_str(buf: &mut Vec<u8>, s: &str)
    requires
        encode_utf8(s@).len() <= 65535,
    ensures
        final(buf)@ == old(buf)@ + string_enc(s@),
{
    let bytes = s.as_bytes();
    let v = slice_to_vec(bytes);
    write_varbytes(buf, &v);
}

/// Byte length of the UTF-8 form of `s`, as a 32-bit count.
pub fn str_byte_len(s: &str) -> (n: u32)
    requires
        encode_utf8(s@).len() <= 65535,
    ensures
        n == encode_utf8(s@).len(),
{
    s.len() as u32
}

pub fn read_u8(buf: &Vec<u8>, pos: usize, end: usize) -> (r: Result<(u8, usize), IoError>)
    requires
        pos <= end <= buf@.len(),
    ensures
        match r {
            Ok((v, n)) => sp_u8(buf@, pos as int, end as int) == Ok::<(u8, int), IoError>(
                (v, n as int),
            ),
            Err(e) => sp_u8(buf@, pos as int, end as int) == Err::<(u8, int), IoError>(e),
        },
{
    if end - pos >= 1 {
        Ok((buf[pos], pos + 1))
    } else {
        Err(IoError::UnexpectedEof)
    }
}

pub fn read_u16(buf: &Vec<u8>, pos: usize, end: usize) -> (r: Result<(u16, usize), IoError>)
    requires
        pos <= end <= buf@.len(),
    ensures
        match r {
            Ok((v, n)) => sp_u16(buf@, pos as int, end as int) == Ok::<(u16, int), IoError>(
                (v, n as int),
            ),
            Err(e) => sp_u16(buf@, pos as int, end as int) == Err::<(u16, int), IoError>(e),
        },
{
    if end - pos >= 2 {
        let v: u16 = (buf[pos] as u16) * 256 + (buf[pos + 1] as u16);
        Ok((v, pos + 2))
    } else {
        Err(IoError::UnexpectedEof)
    }
}

pub fn read_bytes(buf: &Vec<u8>, pos: usize, end: usize, n: usize) -> (r: Result<
    (Vec<u8>, usize),
    IoError,
>)
    requires
        pos <= end <= buf@.len(),
    ensures
        match r {
            Ok((v, p)) => sp_bytes(buf@, pos as int, end as int, n as int) == Ok::<
                (Seq<u8>, int),
                IoError,
            >((v@, p as int)),
            Err(e) => sp_bytes(buf@, pos as int, end as int, n as int) == Err::<
                (Seq<u8>, int),
                IoError,
            >(e),
        },
{
    if end - pos >= n {
        let s = &buf.as_slice()[pos..pos + n];
        let v = slice_to_vec(s);
        Ok((v, pos + n))
    } else {
        Err(IoError::UnexpectedEof)
    }
}

pub fn read_varbytes(buf: &Vec<u8>, pos: usize, end: usize) -> (r: Result<
    (Vec<u8>, usize),
    IoError,
>)
    requires
        pos <= end <= buf@.len(),
    ensures
        match r {
            Ok((v, p)) => sp_varbytes(buf@, pos as int, end as int) == Ok::<
                (Seq<u8>, int),
                IoError,
            >((v@, p as int)),
            Err(e) => sp_varbytes(buf@, pos as int, end as int) == Err::<(Seq<u8>, int), IoError>(
                e,
            ),
        },
{
    match read_u16(buf, pos, end) {
        Ok((n, p)) => read_bytes(buf, p, end, n as usize),
        Err(e) => Err(e),
    }
}

/// Relies on `String::from_utf8`: it succeeds exactly on valid UTF-8 input and
/// returns the string whose bytes are that input.
#[verifier::external_body]
fn string_from_utf8(v: Vec<u8>) -> (r: Option<String>)
    ensures
        match r {
            Some(s) => valid_utf8(v@) && s@ == decode_utf8(v@),
            None => !valid_utf8(v@),
        },
{
    String::from_utf8(v).ok()
}

pub fn read_string(buf: &Vec<u8>, pos: usize, end: usize) -> (r: Result<
    (String, usize),
    StringReadError,
>)
    requires
        pos <= end <= buf@.len(),
    ensures
        match r {
            Ok((v, p)) => sp_string(buf@, pos as int, end as int) == Ok::<
                (Seq<char>, int),
                StringReadError,
            >((v@, p as int)),
            Err(e) => sp_string(buf@, pos as int, end as int) == Err::<
                (Seq<char>, int),
                StringReadError,
            >(e),
        },
{
    match read_varbytes(buf, pos, end) {
        Ok((v, p)) => match string_from_utf8(v) {
            Some(s) => Ok((s, p)),
            None => Err(StringReadError::InvalidUtf8),
        },
        Err(_) => Err(StringReadError::UnexpectedEof),
    }
}

/// Reading back two big-endian bytes of a value yields the value.
pub proof fn lemma_be_u16_val(v: u16)
    ensures
        be_val(be_u16(v), 0) == v,
{
    lemma_fundamental_div_mod(v as int, 256);
}

/// A 16-bit parse succeeds on the encoding of a value, whatever follows it.
pub proof fn lemma_sp_u16_of_enc(v: u16, s: Seq<u8>, pos: int, end: int)
    requires
        0 <= pos,
        pos + 2 <= end <= s.len(),
        s.subrange(pos, pos + 2) == be_u16(v),
    ensures
        sp_u16(s, pos, end) == Ok::<(u16, int), IoError>((v, pos + 2)),
{
    assert(s[pos] == be_u16(v)[0]);
    assert(s[pos + 1] == be_u16(v)[1]);
    lemma_be_u16_val(v);
}

/// A blob parse succeeds on the encoding of a blob, whatever follows it.
pub proof fn lemma_sp_varbytes_of_enc(b: Seq<u8>, s: Seq<u8>, pos: int, end: int)
    requires
        b.len() <= 65535,
        0 <= pos,
        pos + 2 + b.len() <= end <= s.len(),
        s.subrange(pos, pos + 2 + b.len()) == varbytes_enc(b),
    ensures
        sp_varbytes(s, pos, end) == Ok::<(Seq<u8>, int), IoError>((b, pos + 2 + b.len())),
{
    let w = varbytes_enc(b);
    assert(s.subrange(pos, pos + 2) =~= w.subrange(0, 2));
    assert(w.subrange(0, 2) =~= be_u16(b.len() as u16));
    lemma_sp_u16_of_enc(b.len() as u16, s, pos, end);
    assert forall|i: int| 0 <= i < b.len() implies s.subrange(pos + 2, pos + 2 + b.len())[i]
        == b[i] by {
        assert(s.subrange(pos, pos + 2 + b.len())[2 + i] == b[i]);
    }
    assert(s.subrange(pos + 2, pos + 2 + b.len()) =~= b);
}

/// A string parse succeeds on the encoding of a character sequence and yields it back.
pub proof fn lemma_sp_string_of_enc(cs: Seq<char>, s: Seq<u8>, pos: int, end: int)
    requires
        encode_utf8(cs).len() <= 65535,
        0 <= pos,
        pos + 2 + encode_utf8(cs).len() <= end <= s.len(),
        s.subrange(pos, pos + 2 + encode_utf8(cs).len()) == string_enc(cs),
    ensures
        sp_string(s, pos, end) == Ok::<(Seq<char>, int), StringReadError>(
            (cs, pos + 2 + encode_utf8(cs).len()),
        ),
{
    lemma_sp_varbytes_of_enc(encode_utf8(cs), s, pos, end);
    vstd::utf8::encode_utf8_valid_utf8(cs);
    vstd::utf8::encode_utf8_decode_utf8(cs);
}

/// A component of a larger byte string seen through a window: when `w` stands
/// at `pos` in `s` and `c` stands at `off` in `w`, then `c` stands at
/// `pos + off` in `s`.
pub proof fn lemma_component_at(s: Seq<u8>, pos: int, w: Seq<u8>, off: int, c: Seq<u8>)
    requires
        0 <= pos,
        pos + w.len() <= s.len(),
        s.subrange(pos, pos + w.len()) == w,
        0 <= off,
        off + c.len() <= w.len(),
        w.subrange(off, off + c.len()) == c,
    ensures
        s.subrange(pos + off, pos + off + c.len()) == c,
{
    assert forall|j: int| 0 <= j < c.len() implies s.subrange(pos + off, pos + off + c.len())[j]
        == c[j] by {
        assert(s.subrange(pos, pos + w.len())[off + j] == w[off + j]);
        assert(w.subrange(off, off + c.len())[j] == c[j]);
    }
    assert(s.subrange(pos + off, pos + off + c.len()) =~= c);
}

/// The UTF-8 form of a character sequence takes at most four bytes per
/// character.
pub proof fn lemma_encode_utf8_len_bound(cs: Seq<char>)
    ensures
        encode_utf8(cs).len() <= 4 * cs.len(),
    decreases cs.len(),
{
    if cs.len() == 0 {
    } else {
        lemma_encode_utf8_len_bound(cs.drop_first());
    }
}

/// An ASCII byte occurs in the UTF-8 form of a character sequence exactly
/// when the character it spells occurs in the sequence: every byte of a
/// multi-byte scalar is 0x80 or above.
pub proof fn lemma_ascii_byte_in_utf8(cs: Seq<char>, b: u8)
    requires
        b < 0x80,
    ensures
        (forall|j: int|
            0 <= j < encode_utf8(cs).len() ==> #[trigger] encode_utf8(cs)[j] != b) <==> (forall|
            i: int,
        |
            0 <= i < cs.len() ==> #[trigger] (cs[i] as u32) != b as u32),
    decreases cs.len(),
{
    if cs.len() == 0 {
    } else {
        let c0 = cs[0] as u32;
        vstd::utf8::char_is_scalar(cs[0]);
        let head = vstd::utf8::encode_scalar(c0);
        let rest = cs.drop_first();
        let w = encode_utf8(cs);
        let rw = encode_utf8(rest);
        assert(w == head + rw);
        lemma_ascii_byte_in_utf8(rest, b);
        lemma_encode_scalar_ascii(c0, b);
        if forall|j: int| 0 <= j < w.len() ==> #[trigger] w[j] != b {
            assert forall|k: int| 0 <= k < head.len() implies #[trigger] head[k] != b by {
                assert(w[k] != b);
            }
            assert forall|k: int| 0 <= k < rw.len() implies #[trigger] rw[k] != b by {
                assert(w[head.len() + k] != b);
            }
            assert forall|i: int| 0 <= i < cs.len() implies #[trigger] (cs[i] as u32)
                != b as u32 by {
                if i > 0 {
                    assert(rest[i - 1] == cs[i]);
                    assert((rest[i - 1] as u32) != b as u32);
                }
            }
        }
        if forall|i: int| 0 <= i < cs.len() ==> #[trigger] (cs[i] as u32) != b as u32 {
            assert forall|i: int| 0 <= i < rest.len() implies #[trigger] (rest[i] as u32)
                != b as u32 by {
                assert((cs[i + 1] as u32) != b as u32);
            }
            assert forall|j: int| 0 <= j < w.len() implies #[trigger] w[j] != b by {
                if j < head.len() {
                    assert(w[j] == head[j]);
                } else {
                    assert(w[j] == rw[j - head.len()]);
                }
            }
        }
    }
}

/// The single-scalar form of the occurrence fact: an ASCII byte stands in a
/// scalar's UTF-8 encoding exactly when it is that scalar.
proof fn lemma_encode_scalar_ascii(c: u32, b: u8)
    requires
        vstd::utf8::is_scalar(c),
        b < 0x80,
    ensures
        (exists|k: int|
            0 <= k < vstd::utf8::encode_scalar(c).len() && #[trigger] vstd::utf8::encode_scalar(
                c,
            )[k] == b) <==> c == b as u32,
{
    let w = vstd::utf8::encode_scalar(c);
    if vstd::utf8::has_width_1_encoding(c) {
        assert(((c & 0x7F) as u8) as u32 == c) by (bit_vector)
            requires
                c <= 0x7F,
        ;
        assert(w[0] as u32 == c);
        if c == b as u32 {
            assert(w[0] == b);
        }
    } else {
        assert((0xC0u8 | (((c >> 6) & 0x1F) as u8)) >= 0x80) by (bit_vector);
        assert((0xE0u8 | (((c >> 12) & 0x0F) as u8)) >= 0x80) by (bit_vector);
        assert((0xF0u8 | (((c >> 18) & 0x7) as u8)) >= 0x80) by (bit_vector);
        assert((0x80u8 | ((c & 0x3F) as u8)) >= 0x80) by (bit_vector);
        assert((0x80u8 | (((c >> 6) & 0x3F) as u8)) >= 0x80) by (bit_vector);
        assert((0x80u8 | (((c >> 12) & 0x3F) as u8)) >= 0x80) by (bit_vector);
        assert(c > 0x7F);
        assert forall|k: int| 0 <= k < w.len() implies #[trigger] w[k] >= 0x80 by {}
    }
}

/// Bytes that are written with a 16-bit length prefix.
#[derive(Debug, Eq, PartialEq, Clone)]
pub struct VarBytes(pub Vec<u8>);

impl Encodable for VarBytes {
    open spec fn enc(&self) -> Seq<u8> {
        varbytes_enc(self.0@)
    }

    open spec fn enc_wf(&self) -> bool {
        self.0@.len() <= 65535
    }

    fn encode(&self, buf: &mut Vec<u8>) {
        write_varbytes(buf, &self.0);
    }

    fn encoded_length(&self) -> u32 {
        2 + self.0.len() as u32
    }
}

impl VarBytes {
    /// Reads a length-prefixed blob; succeeds exactly when the prefix and that
    /// many bytes fit in `buf[pos..]`.
    pub fn decode(buf: &Vec<u8>, pos: usize) -> (r: Result<(VarBytes, usize), IoError>)
        requires
            pos <= buf@.len(),
        ensures
            match r {
                Ok((v, p)) => sp_varbytes(buf@, pos as int, buf@.len() as int) == Ok::<
                    (Seq<u8>, int),
                    IoError,
                >((v.0@, p as int)),
                Err(e) => sp_varbytes(buf@, pos as int, buf@.len() as int) == Err::<
                    (Seq<u8>, int),
                    IoError,
                >(e),
            },
    {
        match read_varbytes(buf, pos, buf.len()) {
            Ok((v, p)) => Ok((VarBytes(v), p)),
            Err(e) => Err(e),
        }
    }
}

} // verus!
