//! Topic names: validated publish targets.

use vstd::prelude::*;

verus! {

use vstd::utf8::{encode_utf8, decode_utf8};
use vstd::string::StringSliceAdditionalSpecFns;
use crate::encodable::{
    Encodable,
    Decodable,
    IoError,
    StringReadError,
    string_enc,
    sp_string,
    write_str,
    str_byte_len,
    read_string,
};

/// A byte string is a valid topic name when it is non-empty, fits the 16-bit
/// length prefix, and holds neither wildcard byte `#` nor `+`.
pub open spec fn valid_topic_name_bytes(b: Seq<u8>) -> bool {
    &&& 0 < b.len() <= 65535
    &&& forall|i: int| 0 <= i < b.len() ==> #[trigger] b[i] != 0x23 && b[i] != 0x2b
}

/// A byte string names a server-specific topic when it begins with `$`.
pub open spec fn is_server_specific_bytes(b: Seq<u8>) -> bool {
    b.len() > 0 && b[0] == 0x24
}

/// True exactly when `topic_name` is not a valid topic name: empty, longer
/// than 65535 bytes, or holding a `#` or `+`.
pub fn is_invalid_topic_name(topic_name: &str) -> (r: bool)
    ensures
        r == !valid_topic_name_bytes(encode_utf8(topic_name@)),
{
    let b = topic_name.as_bytes();
    if b.len() == 0 || b.len() > 65535 {
        return true;
    }
    let mut i: usize = 0;
    while i < b.len()
        invariant
            0 <= i <= b@.len(),
            b@ == encode_utf8(topic_name@),
            forall|j: int| 0 <= j < i ==> #[trigger] b@[j] != 0x23 && b@[j] != 0x2b,
        decreases b@.len() - i,
    {
        if b[i] == 0x23 || b[i] == 0x2b {
            return true;
        }
        i = i + 1;
    }
    false
}

/// The string holds no valid topic name.
#[derive(Debug, PartialEq, Eq, Clone, Copy)]
pub struct TopicNameError;

/// Errors while decoding a topic name from the wire.
#[derive(Debug, PartialEq, Eq, Clone, Copy)]
pub enum TopicNameDecodeError {
    /// The input ended inside the field.
    IoError(IoError),
    /// The field bytes are not valid UTF-8.
    Utf8,
    /// The decoded string is not a valid topic name.
    InvalidTopicName(TopicNameError),
}

/// What decoding a topic-name field yields: a length-prefixed UTF-8 string
/// that passes topic-name validation.
pub open spec fn sp_topic_name(s: Seq<u8>, pos: int, end: int) -> Result<
    (Seq<char>, int),
    TopicNameDecodeError,
>
    recommends
        0 <= pos <= end <= s.len(),
{
    match sp_string(s, pos, end) {
        Err(StringReadError::UnexpectedEof) => Err(
            TopicNameDecodeError::IoError(IoError::UnexpectedEof),
        ),
        Err(StringReadError::InvalidUtf8) => Err(TopicNameDecodeError::Utf8),
        Ok((cs, p)) => if valid_topic_name_bytes(encode_utf8(cs)) {
            Ok((cs, p))
        } else {
            Err(TopicNameDecodeError::InvalidTopicName(TopicNameError))
        },
    }
}

/// Topic-name validity in terms of the characters themselves: the byte-level
/// rule holds exactly when the string is non-empty, its UTF-8 form fits the
/// 16-bit length prefix, and no character is `#` or `+`.
pub proof fn lemma_topic_name_chars(cs: Seq<char>)
    ensures
        valid_topic_name_bytes(encode_utf8(cs)) <==> (0 < encode_utf8(cs).len() <= 65535 && forall|
            i: int,
        | 0 <= i < cs.len() ==> cs[i] != '#' && #[trigger] cs[i] != '+'),
{
    crate::encodable::lemma_ascii_byte_in_utf8(cs, 0x23);
    crate::encodable::lemma_ascii_byte_in_utf8(cs, 0x2b);
    assert('#' as u32 == 0x23 && '+' as u32 == 0x2b);
    assert forall|i: int| 0 <= i < cs.len() implies ((cs[i] != '#' && #[trigger] cs[i] != '+')
        <==> ((cs[i] as u32) != 0x23 && (cs[i] as u32) != 0x2b)) by {
        vstd::utf8::char_u32_cast(cs[i], cs[i] as u32);
    }
}

/// Topic name: a validated, owned string without wildcards.
#[derive(Debug, Eq, PartialEq, Clone, Hash, Ord, PartialOrd)]
pub struct TopicName(String);

impl View for TopicName {
    type V = Seq<char>;

    closed spec fn view(&self) -> Seq<char> {
        self.0@
    }
}

impl TopicName {
    /// The validity invariant every constructed topic name carries.
    pub open spec fn wf(&self) -> bool {
        valid_topic_name_bytes(encode_utf8(self@))
    }

    /// Creates a topic name; fails exactly when the string breaks the
    /// topic-name rules.
    pub fn new(topic_name: String) -> (r: Result<TopicName, TopicNameError>)
        ensures
            match r {
                Ok(t) => valid_topic_name_bytes(encode_utf8(topic_name@)) && t@ == topic_name@
                    && t.wf(),
                Err(_) => !valid_topic_name_bytes(encode_utf8(topic_name@)),
            },
    {
        if is_invalid_topic_name(topic_name.as_str()) {
            Err(TopicNameError)
        } else {
            Ok(TopicName(topic_name))
        }
    }

    /// The name as a string slice.
    pub fn as_str(&self) -> (r: &str)
        ensures
            r@ == self@,
    {
        self.0.as_str()
    }

    /// Whether this name is reserved for servers (begins with `$`).
    pub fn is_server_specific(&self) -> (r: bool)
        ensures
            r == is_server_specific_bytes(encode_utf8(self@)),
    {
        let b = self.0.as_str().as_bytes();
        b.len() > 0 && b[0] == 0x24
    }
}

impl Encodable for TopicName {
    open spec fn enc(&self) -> Seq<u8> {
        string_enc(self@)
    }

    open spec fn enc_wf(&self) -> bool {
        self.wf()
    }

    fn encode(&self, buf: &mut Vec<u8>) {
        proof {
            assert(self@ == self.0@);
        }
        write_str(buf, self.0.as_str());
    }

    fn encoded_length(&self) -> (n: u32) {
        proof {
            assert(self@ == self.0@);
        }
        2 + str_byte_len(self.0.as_str())
    }
}

impl TopicName {
    /// Reads a topic-name field; fails on short input, bad UTF-8, and strings
    /// that break the topic-name rules, in that order.
    pub fn decode(buf: &Vec<u8>, pos: usize, end: usize) -> (r: Result<
        (TopicName, usize),
        TopicNameDecodeError,
    >)
        requires
            pos <= end <= buf@.len(),
        ensures
            match r {
                Ok((t, p)) => sp_topic_name(buf@, pos as int, end as int) == Ok::<
                    (Seq<char>, int),
                    TopicNameDecodeError,
                >((t@, p as int)) && t.wf(),
                Err(e) => sp_topic_name(buf@, pos as int, end as int) == Err::<
                    (Seq<char>, int),
                    TopicNameDecodeError,
                >(e),
            },
    {
        match read_string(buf, pos, end) {
            Err(StringReadError::UnexpectedEof) => Err(
                TopicNameDecodeError::IoError(IoError::UnexpectedEof),
            ),
            Err(StringReadError::InvalidUtf8) => Err(TopicNameDecodeError::Utf8),
            Ok((s, p)) => {
                match TopicName::new(s) {
                    Ok(t) => Ok((t, p)),
                    Err(e) => Err(TopicNameDecodeError::InvalidTopicName(e)),
                }
            },
        }
    }
}

impl Decodable for TopicName {
    type Error = TopicNameDecodeError;

    fn decode(buf: &Vec<u8>, pos: usize) -> Result<(TopicName, usize), TopicNameDecodeError> {
        TopicName::decode(buf, pos, buf.len())
    }
}

/// A valid topic name decodes back from its own encoding, whatever follows it.
pub proof fn lemma_sp_topic_name_of_enc(cs: Seq<char>, s: Seq<u8>, pos: int, end: int)
    requires
        valid_topic_name_bytes(encode_utf8(cs)),
        0 <= pos,
        pos + 2 + encode_utf8(cs).len() <= end <= s.len(),
        s.subrange(pos, pos + 2 + encode_utf8(cs).len()) == string_enc(cs),
    ensures
        sp_topic_name(s, pos, end) == Ok::<(Seq<char>, int), TopicNameDecodeError>(
            (cs, pos + 2 + encode_utf8(cs).len()),
        ),
{
    crate::encodable::lemma_sp_string_of_enc(cs, s, pos, end);
}

/// Reference form of a topic name: a validated borrowed view of a string.
#[derive(Debug, Clone, Copy)]
pub struct TopicNameRef<'a> {
    inner: &'a str,
}

impl<'a> View for TopicNameRef<'a> {
    type V = Seq<char>;

    closed spec fn view(&self) -> Seq<char> {
        self.inner@
    }
}

impl<'a> TopicNameRef<'a> {
    /// The validity invariant every constructed reference carries.
    pub open spec fn wf(&self) -> bool {
        valid_topic_name_bytes(encode_utf8(self@))
    }

    /// Creates a checked reference to a topic name; fails exactly when the
    /// string breaks the topic-name rules.
    pub fn new(topic_name: &'a str) -> (r: Result<TopicNameRef<'a>, TopicNameError>)
        ensures
            match r {
                Ok(t) => valid_topic_name_bytes(encode_utf8(topic_name@)) && t@ == topic_name@
                    && t.wf(),
                Err(_) => !valid_topic_name_bytes(encode_utf8(topic_name@)),
            },
    {
        if is_invalid_topic_name(topic_name) {
            Err(TopicNameError)
        } else {
            Ok(TopicNameRef { inner: topic_name })
        }
    }

    /// The name as a string slice.
    pub fn as_str(&self) -> (r: &'a str)
        ensures
            r@ == self@,
    {
        self.inner
    }

    /// Whether this name is reserved for servers (begins with `$`).
    pub fn is_server_specific(&self) -> (r: bool)
        ensures
            r == is_server_specific_bytes(encode_utf8(self@)),
    {
        let b = self.inner.as_bytes();
        b.len() > 0 && b[0] == 0x24
    }

    /// An owned copy of this topic name.
    pub fn to_owned_name(&self) -> (r: TopicName)
        ensures
            r@ == self@,
    {
        TopicName(<String as vstd::string::StringExecFns>::from_str(self.inner))
    }
}

impl<'a> Encodable for TopicNameRef<'a> {
    open spec fn enc(&self) -> Seq<u8> {
        string_enc(self@)
    }

    open spec fn enc_wf(&self) -> bool {
        self.wf()
    }

    fn encode(&self, buf: &mut Vec<u8>) {
        let s = self.inner;
        proof {
            assert(s@ == self@);
        }
        write_str(buf, s);
    }

    fn encoded_length(&self) -> (n: u32) {
        proof {
            assert(self.inner@ == self@);
        }
        2 + str_byte_len(self.inner)
    }
}

} // verus!
