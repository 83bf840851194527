//! Topic filters: validated subscription patterns with a matcher.

use vstd::prelude::*;

verus! {

use vstd::utf8::encode_utf8;
use vstd::slice::slice_to_vec;
use crate::encodable::{
    Encodable,
    Decodable,
    IoError,
    StringReadError,
    string_enc,
    sp_string,
    write_str,
    str_byte_len,
    read_string,
};
use crate::topic_name::TopicNameRef;

/// Index of the first `/` in `b`, or -1 when there is none.
pub open spec fn first_slash(b: Seq<u8>) -> int
    decreases b.len(),
{
    if b.len() == 0 {
        -1
    } else if b[0] == 0x2f {
        0
    } else {
        let r = first_slash(b.drop_first());
        if r < 0 {
            -1
        } else {
            r + 1
        }
    }
}

/// What `first_slash` finds: the least index of a `/`, or -1 when none occurs.
pub proof fn lemma_first_slash_spec(b: Seq<u8>)
    ensures
        first_slash(b) == -1 || (0 <= first_slash(b) < b.len()),
        first_slash(b) == -1 ==> forall|j: int| 0 <= j < b.len() ==> #[trigger] b[j] != 0x2f,
        first_slash(b) >= 0 ==> b[first_slash(b)] == 0x2f,
        first_slash(b) >= 0 ==> forall|j: int|
            0 <= j < first_slash(b) ==> #[trigger] b[j] != 0x2f,
    decreases b.len(),
{
    if b.len() == 0 {
    } else if b[0] == 0x2f {
    } else {
        lemma_first_slash_spec(b.drop_first());
        assert forall|j: int| 0 <= j < b.len() && first_slash(b) == -1 implies #[trigger] b[j]
            != 0x2f by {
            if j > 0 {
                assert(b.drop_first()[j - 1] != 0x2f);
            }
        }
        if first_slash(b) >= 0 {
            assert forall|j: int| 0 <= j < first_slash(b) implies #[trigger] b[j] != 0x2f by {
                if j > 0 {
                    assert(b.drop_first()[j - 1] != 0x2f);
                }
            }
        }
    }
}

/// Splitting on `/`: each level of the byte string, empty levels included.
pub open spec fn split_levels(b: Seq<u8>) -> Seq<Seq<u8>>
    decreases b.len(),
{
    let i = first_slash(b);
    if 0 <= i < b.len() {
        seq![b.subrange(0, i)] + split_levels(b.subrange(i + 1, b.len() as int))
    } else {
        seq![b]
    }
}

/// When `b[k]` is the first `/`, the split is the prefix level followed by the
/// split of what comes after the slash.
pub proof fn lemma_split_levels_at(b: Seq<u8>, k: int)
    requires
        0 <= k < b.len(),
        b[k] == 0x2f,
        forall|j: int| 0 <= j < k ==> #[trigger] b[j] != 0x2f,
    ensures
        split_levels(b) == seq![b.subrange(0, k)] + split_levels(b.subrange(k + 1, b.len() as int)),
    decreases k,
{
    if k == 0 {
    } else {
        assert(b[0] != 0x2f);
        let t = b.drop_first();
        assert(t[k - 1] == 0x2f);
        assert forall|j: int| 0 <= j < k - 1 implies #[trigger] t[j] != 0x2f by {
            assert(b[j + 1] != 0x2f);
        }
        lemma_first_slash_at(t, k - 1);
        assert(first_slash(b) == k);
        lemma_first_slash_spec(b);
        assert(b.subrange(k + 1, b.len() as int) =~= b.subrange(k + 1, b.len() as int));
    }
}

/// When `b[k]` is a `/` preceded by none, `first_slash` finds exactly `k`.
pub proof fn lemma_first_slash_at(b: Seq<u8>, k: int)
    requires
        0 <= k < b.len(),
        b[k] == 0x2f,
        forall|j: int| 0 <= j < k ==> #[trigger] b[j] != 0x2f,
    ensures
        first_slash(b) == k,
    decreases k,
{
    if k == 0 {
    } else {
        assert(b[0] != 0x2f);
        let t = b.drop_first();
        assert(t[k - 1] == 0x2f);
        assert forall|j: int| 0 <= j < k - 1 implies #[trigger] t[j] != 0x2f by {
            assert(b[j + 1] != 0x2f);
        }
        lemma_first_slash_at(t, k - 1);
    }
}

/// When `b` holds no `/` at all, it is its own single level.
pub proof fn lemma_split_levels_whole(b: Seq<u8>)
    requires
        forall|j: int| 0 <= j < b.len() ==> #[trigger] b[j] != 0x2f,
    ensures
        split_levels(b) == seq![b],
    decreases b.len(),
{
    lemma_first_slash_spec(b);
    if first_slash(b) >= 0 {
        assert(b[first_slash(b)] == 0x2f);
        assert(false);
    }
}

/// A level holds neither wildcard byte.
pub open spec fn wildcard_free(l: Seq<u8>) -> bool {
    forall|j: int| 0 <= j < l.len() ==> #[trigger] l[j] != 0x23 && l[j] != 0x2b
}

/// A level of a filter is acceptable: `#` alone and only as the last level,
/// `+` alone anywhere, otherwise no wildcard byte at all.
pub open spec fn valid_level(l: Seq<u8>, last: bool) -> bool {
    if l == seq![0x23u8] {
        last
    } else {
        l == seq![0x2bu8] || wildcard_free(l)
    }
}

/// A byte string is a valid topic filter when it is non-empty, fits the 16-bit
/// length prefix, and each of its levels is acceptable.
pub open spec fn valid_topic_filter_bytes(b: Seq<u8>) -> bool {
    &&& 0 < b.len() <= 65535
    &&& forall|i: int|
        0 <= i < split_levels(b).len() ==> valid_level(
            #[trigger] split_levels(b)[i],
            i == split_levels(b).len() - 1,
        )
}

/// Filter levels against name levels, walked in lockstep: `#` matches any
/// remainder including none, `+` matches exactly one level, a literal level
/// must be equal, and both sides must run out together.
pub open spec fn levels_match(f: Seq<Seq<u8>>, t: Seq<Seq<u8>>) -> bool
    decreases f.len(),
{
    if f.len() == 0 {
        t.len() == 0
    } else if f[0] == seq![0x23u8] {
        true
    } else if t.len() == 0 {
        false
    } else if f[0] == seq![0x2bu8] || f[0] == t[0] {
        levels_match(f.drop_first(), t.drop_first())
    } else {
        false
    }
}

/// Whether the filter bytes match the topic-name bytes: a name whose first
/// level begins with `$` must be matched literally on that level; otherwise
/// the levels are walked in lockstep.
pub open spec fn filter_matches(fb: Seq<u8>, tb: Seq<u8>) -> bool {
    let f = split_levels(fb);
    let t = split_levels(tb);
    if t[0].len() > 0 && t[0][0] == 0x24 {
        f[0] == t[0] && levels_match(f.drop_first(), t.drop_first())
    } else {
        levels_match(f, t)
    }
}

/// The sequence of level views held by a vector of levels.
pub open spec fn levels_view(v: Seq<Vec<u8>>) -> Seq<Seq<u8>> {
    Seq::new(v.len(), |i: int| v[i]@)
}

/// Splits a byte string on `/` into its levels.
fn split_bytes(b: &Vec<u8>) -> (r: Vec<Vec<u8>>)
    ensures
        levels_view(r@) == split_levels(b@),
        r@.len() >= 1,
{
    let mut res: Vec<Vec<u8>> = Vec::new();
    let mut start: usize = 0;
    let mut i: usize = 0;
    proof {
        assert(b@.subrange(0, b@.len() as int) =~= b@);
        assert(levels_view(res@) =~= Seq::<Seq<u8>>::empty());
        assert(levels_view(res@) + split_levels(b@) =~= split_levels(b@));
    }
    while i < b.len()
        invariant
            0 <= start <= i <= b@.len(),
            forall|j: int| start <= j < i ==> #[trigger] b@[j] != 0x2f,
            split_levels(b@) =~= levels_view(res@) + split_levels(
                b@.subrange(start as int, b@.len() as int),
            ),
        decreases b@.len() - i,
    {
        if b[i] == 0x2f {
            let level = slice_to_vec(&b.as_slice()[start..i]);
            proof {
                let t = b@.subrange(start as int, b@.len() as int);
                assert(t[i - start] == 0x2f);
                assert forall|j: int| 0 <= j < i - start implies #[trigger] t[j] != 0x2f by {
                    assert(b@[start + j] != 0x2f);
                }
                lemma_split_levels_at(t, i - start);
                assert(t.subrange(0, i - start) =~= b@.subrange(start as int, i as int));
                assert(t.subrange(i - start + 1, t.len() as int) =~= b@.subrange(
                    i + 1,
                    b@.len() as int,
                ));
            }
            res.push(level);
            proof {
                assert(levels_view(res@) =~= levels_view(res@.drop_last()).push(
                    b@.subrange(start as int, i as int),
                ));
                assert(split_levels(b@) =~= levels_view(res@) + split_levels(
                    b@.subrange(i + 1, b@.len() as int),
                ));
            }
            start = i + 1;
        }
        i = i + 1;
    }
    let level = slice_to_vec(&b.as_slice()[start..b.len()]);
    proof {
        let t = b@.subrange(start as int, b@.len() as int);
        assert forall|j: int| 0 <= j < t.len() implies #[trigger] t[j] != 0x2f by {
            assert(b@[start + j] != 0x2f);
        }
        lemma_split_levels_whole(t);
    }
    res.push(level);
    proof {
        assert(levels_view(res@) =~= levels_view(res@.drop_last()).push(
            b@.subrange(start as int, b@.len() as int),
        ));
        assert(levels_view(res@) =~= split_levels(b@));
    }
    res
}

/// Compares two byte vectors for equality of contents.
fn bytes_eq(a: &Vec<u8>, b: &Vec<u8>) -> (r: bool)
    ensures
        r == (a@ == b@),
{
    if a.len() != b.len() {
        assert(a@ !== b@);
        return false;
    }
    let mut i: usize = 0;
    while i < a.len()
        invariant
            0 <= i <= a@.len(),
            a@.len() == b@.len(),
            forall|j: int| 0 <= j < i ==> #[trigger] a@[j] == b@[j],
        decreases a@.len() - i,
    {
        if a[i] != b[i] {
            assert(a@ !== b@);
            return false;
        }
        i = i + 1;
    }
    assert(a@ =~= b@);
    true
}

/// Whether a level is exactly the single wildcard byte `w`.
fn level_is(l: &Vec<u8>, w: u8) -> (r: bool)
    ensures
        r == (l@ == seq![w]),
{
    if l.len() == 1 && l[0] == w {
        assert(l@ =~= seq![w]);
        true
    } else {
        assert(l@ !== seq![w]);
        false
    }
}

/// Walks filter levels against name levels from the given offsets.
fn match_from(f: &Vec<Vec<u8>>, t: &Vec<Vec<u8>>, fi0: usize, ti0: usize) -> (r: bool)
    requires
        fi0 <= f@.len(),
        ti0 <= t@.len(),
    ensures
        r == levels_match(levels_view(f@).skip(fi0 as int), levels_view(t@).skip(ti0 as int)),
{
    let ghost fv = levels_view(f@);
    let ghost tv = levels_view(t@);
    let mut fi: usize = fi0;
    let mut ti: usize = ti0;
    loop
        invariant
            fi0 <= fi <= f@.len(),
            ti0 <= ti <= t@.len(),
            fv == levels_view(f@),
            tv == levels_view(t@),
            levels_match(fv.skip(fi as int), tv.skip(ti as int)) == levels_match(
                fv.skip(fi0 as int),
                tv.skip(ti0 as int),
            ),
        decreases f@.len() - fi,
    {
        proof {
            if fi < f@.len() {
                assert(fv.skip(fi as int)[0] == fv[fi as int]);
                assert(fv.skip(fi as int).drop_first() =~= fv.skip(fi + 1));
            }
            if ti < t@.len() {
                assert(tv.skip(ti as int)[0] == tv[ti as int]);
                assert(tv.skip(ti as int).drop_first() =~= tv.skip(ti + 1));
            }
        }
        if fi == f.len() {
            return ti == t.len();
        }
        if level_is(&f[fi], 0x23) {
            return true;
        }
        if ti == t.len() {
            return false;
        }
        if level_is(&f[fi], 0x2b) || bytes_eq(&f[fi], &t[ti]) {
            fi = fi + 1;
            ti = ti + 1;
        } else {
            return false;
        }
    }
}

/// The string holds no valid topic filter.
#[derive(Debug, PartialEq, Eq, Clone, Copy)]
pub struct TopicFilterError;

/// Errors while decoding a topic filter from the wire.
#[derive(Debug, PartialEq, Eq, Clone, Copy)]
pub enum TopicFilterDecodeError {
    /// The input ended inside the field.
    IoError(IoError),
    /// The field bytes are not valid UTF-8.
    Utf8,
    /// The decoded string is not a valid topic filter.
    InvalidTopicFilter(TopicFilterError),
}

/// Whether the level holds a `#` or `+` byte anywhere.
fn has_wildcard_byte(l: &Vec<u8>) -> (r: bool)
    ensures
        r == !wildcard_free(l@),
{
    let mut j: usize = 0;
    while j < l.len()
        invariant
            0 <= j <= l@.len(),
            forall|k: int| 0 <= k < j ==> #[trigger] l@[k] != 0x23 && l@[k] != 0x2b,
        decreases l@.len() - j,
    {
        if l[j] == 0x23 || l[j] == 0x2b {
            return true;
        }
        j = j + 1;
    }
    false
}

/// True exactly when `topic` is not a valid topic filter.
pub fn is_invalid_topic_filter(topic: &str) -> (r: bool)
    ensures
        r == !valid_topic_filter_bytes(encode_utf8(topic@)),
{
    let bs = topic.as_bytes();
    if bs.len() == 0 || bs.len() > 65535 {
        return true;
    }
    let b = slice_to_vec(bs);
    let levels = split_bytes(&b);
    let ghost ls = split_levels(b@);
    let n = levels.len();
    let mut i: usize = 0;
    while i < n
        invariant
            0 <= i <= n == levels@.len(),
            levels_view(levels@) == ls,
            ls == split_levels(encode_utf8(topic@)),
            0 < encode_utf8(topic@).len() <= 65535,
            forall|k: int| 0 <= k < i ==> valid_level(#[trigger] ls[k], k == ls.len() - 1),
        decreases n - i,
    {
        let l = &levels[i];
        proof {
            assert(ls[i as int] == levels_view(levels@)[i as int]);
            assert(ls[i as int] == l@);
            assert(ls.len() == levels@.len());
        }
        if level_is(l, 0x23) {
            if i + 1 != n {
                assert(!valid_level(ls[i as int], i == ls.len() - 1));
                return true;
            }
        } else if level_is(l, 0x2b) {
            // a lone `+` is acceptable at any level
        } else {
            if has_wildcard_byte(l) {
                assert(!valid_level(ls[i as int], i == ls.len() - 1));
                return true;
            }
        }
        i = i + 1;
    }
    false
}

/// Topic filter: a validated, owned subscription pattern.
#[derive(Debug, Eq, PartialEq, Clone, Hash, Ord, PartialOrd)]
pub struct TopicFilter(String);

impl View for TopicFilter {
    type V = Seq<char>;

    closed spec fn view(&self) -> Seq<char> {
        self.0@
    }
}

impl TopicFilter {
    /// The validity invariant every constructed topic filter carries.
    pub open spec fn wf(&self) -> bool {
        valid_topic_filter_bytes(encode_utf8(self@))
    }

    /// Creates a topic filter; fails exactly when the string breaks the
    /// topic-filter rules.
    pub fn new(topic: String) -> (r: Result<TopicFilter, TopicFilterError>)
        ensures
            match r {
                Ok(t) => valid_topic_filter_bytes(encode_utf8(topic@)) && t@ == topic@ && t.wf(),
                Err(_) => !valid_topic_filter_bytes(encode_utf8(topic@)),
            },
    {
        if is_invalid_topic_filter(topic.as_str()) {
            Err(TopicFilterError)
        } else {
            Ok(TopicFilter(topic))
        }
    }

    /// The filter as a string slice.
    pub fn as_str(&self) -> (r: &str)
        ensures
            r@ == self@,
    {
        self.0.as_str()
    }

    /// A matcher that holds this filter.
    pub fn get_matcher(&self) -> (r: TopicFilterMatcher<'_>)
        ensures
            r@ == self@,
    {
        TopicFilterMatcher::new(self.0.as_str())
    }
}

impl Encodable for TopicFilter {
    open spec fn enc(&self) -> Seq<u8> {
        string_enc(self@)
    }

    open spec fn enc_wf(&self) -> bool {
        self.wf()
    }

    fn encode(&self, buf: &mut Vec<u8>) {
        let s = self.0.as_str();
        proof {
            assert(self.enc_wf());
            assert(self.wf());
            assert(valid_topic_filter_bytes(encode_utf8(self@)));
            assert(encode_utf8(self@).len() <= 65535);
            assert(s@ == self@);
        }
        write_str(buf, s);
        assert(buf@ == old(buf)@ + string_enc(self@));
        assert(self.enc() == string_enc(self@));
    }

    fn encoded_length(&self) -> (n: u32) {
        proof {
            assert(self@ == self.0@);
        }
        2 + str_byte_len(self.0.as_str())
    }
}

/// What decoding a topic-filter field yields: a length-prefixed UTF-8 string
/// that passes topic-filter validation.
pub open spec fn sp_topic_filter(s: Seq<u8>, pos: int, end: int) -> Result<
    (Seq<char>, int),
    TopicFilterDecodeError,
>
    recommends
        0 <= pos <= end <= s.len(),
{
    match sp_string(s, pos, end) {
        Err(StringReadError::UnexpectedEof) => Err(
            TopicFilterDecodeError::IoError(IoError::UnexpectedEof),
        ),
        Err(StringReadError::InvalidUtf8) => Err(TopicFilterDecodeError::Utf8),
        Ok((cs, p)) => if valid_topic_filter_bytes(encode_utf8(cs)) {
            Ok((cs, p))
        } else {
            Err(TopicFilterDecodeError::InvalidTopicFilter(TopicFilterError))
        },
    }
}

impl TopicFilter {
    /// Reads a topic-filter field; fails on short input, bad UTF-8, and
    /// strings that break the topic-filter rules, in that order.
    pub fn decode(buf: &Vec<u8>, pos: usize, end: usize) -> (r: Result<
        (TopicFilter, usize),
        TopicFilterDecodeError,
    >)
        requires
            pos <= end <= buf@.len(),
        ensures
            match r {
                Ok((t, p)) => sp_topic_filter(buf@, pos as int, end as int) == Ok::<
                    (Seq<char>, int),
                    TopicFilterDecodeError,
                >((t@, p as int)) && t.wf(),
                Err(e) => sp_topic_filter(buf@, pos as int, end as int) == Err::<
                    (Seq<char>, int),
                    TopicFilterDecodeError,
                >(e),
            },
    {
        match read_string(buf, pos, end) {
            Err(StringReadError::UnexpectedEof) => Err(
                TopicFilterDecodeError::IoError(IoError::UnexpectedEof),
            ),
            Err(StringReadError::InvalidUtf8) => Err(TopicFilterDecodeError::Utf8),
            Ok((s, p)) => match TopicFilter::new(s) {
                Ok(t) => Ok((t, p)),
                Err(e) => Err(TopicFilterDecodeError::InvalidTopicFilter(e)),
            },
        }
    }
}

impl Decodable for TopicFilter {
    type Error = TopicFilterDecodeError;

    fn decode(buf: &Vec<u8>, pos: usize) -> Result<(TopicFilter, usize), TopicFilterDecodeError> {
        TopicFilter::decode(buf, pos, buf.len())
    }
}

/// A valid topic filter decodes back from its own encoding, whatever follows it.
pub proof fn lemma_sp_topic_filter_of_enc(cs: Seq<char>, s: Seq<u8>, pos: int, end: int)
    requires
        valid_topic_filter_bytes(encode_utf8(cs)),
        0 <= pos,
        pos + 2 + encode_utf8(cs).len() <= end <= s.len(),
        s.subrange(pos, pos + 2 + encode_utf8(cs).len()) == string_enc(cs),
    ensures
        sp_topic_filter(s, pos, end) == Ok::<(Seq<char>, int), TopicFilterDecodeError>(
            (cs, pos + 2 + encode_utf8(cs).len()),
        ),
{
    crate::encodable::lemma_sp_string_of_enc(cs, s, pos, end);
}

/// Reference form of a topic filter: a validated borrowed view of a string.
#[derive(Debug)]
pub struct TopicFilterRef<'a> {
    inner: &'a str,
}

impl<'a> View for TopicFilterRef<'a> {
    type V = Seq<char>;

    closed spec fn view(&self) -> Seq<char> {
        self.inner@
    }
}

impl<'a> TopicFilterRef<'a> {
    /// The validity invariant every constructed reference carries.
    pub open spec fn wf(&self) -> bool {
        valid_topic_filter_bytes(encode_utf8(self@))
    }

    /// Creates a checked reference to a topic filter; fails exactly when the
    /// string breaks the topic-filter rules.
    pub fn new(topic: &'a str) -> (r: Result<TopicFilterRef<'a>, TopicFilterError>)
        ensures
            match r {
                Ok(t) => valid_topic_filter_bytes(encode_utf8(topic@)) && t@ == topic@ && t.wf(),
                Err(_) => !valid_topic_filter_bytes(encode_utf8(topic@)),
            },
    {
        if is_invalid_topic_filter(topic) {
            Err(TopicFilterError)
        } else {
            Ok(TopicFilterRef { inner: topic })
        }
    }

    /// The filter as a string slice.
    pub fn as_str(&self) -> (r: &'a str)
        ensures
            r@ == self@,
    {
        self.inner
    }

    /// A matcher that holds this filter.
    pub fn get_matcher(&self) -> (r: TopicFilterMatcher<'a>)
        ensures
            r@ == self@,
    {
        TopicFilterMatcher::new(self.inner)
    }
}

/// Matcher holding a topic filter, for matching topic names against it.
#[derive(Debug, Copy, Clone)]
pub struct TopicFilterMatcher<'a> {
    topic_filter: &'a str,
}

impl<'a> View for TopicFilterMatcher<'a> {
    type V = Seq<char>;

    closed spec fn view(&self) -> Seq<char> {
        self.topic_filter@
    }
}

impl<'a> TopicFilterMatcher<'a> {
    fn new(filter: &'a str) -> (r: TopicFilterMatcher<'a>)
        ensures
            r@ == filter@,
    {
        TopicFilterMatcher { topic_filter: filter }
    }

    /// Whether this filter matches `topic_name`, by the wildcard rules:
    /// `#` takes any remainder, `+` exactly one level, and a name beginning
    /// with `$` is never taken by a wildcard in the first level.
    pub fn is_match(&self, topic_name: &TopicNameRef<'_>) -> (r: bool)
        ensures
            r == filter_matches(encode_utf8(self@), encode_utf8(topic_name@)),
    {
        let fb = slice_to_vec(self.topic_filter.as_bytes());
        let tb = slice_to_vec(topic_name.as_str().as_bytes());
        let f = split_bytes(&fb);
        let t = split_bytes(&tb);
        let ghost fv = levels_view(f@);
        let ghost tv = levels_view(t@);
        proof {
            assert(fv.skip(0) =~= fv);
            assert(tv.skip(0) =~= tv);
            assert(fv.drop_first() =~= fv.skip(1));
            assert(tv.drop_first() =~= tv.skip(1));
        }
        let t0 = &t[0];
        if t0.len() > 0 && t0[0] == 0x24 {
            if bytes_eq(&f[0], t0) {
                match_from(&f, &t, 1, 1)
            } else {
                false
            }
        } else {
            match_from(&f, &t, 0, 0)
        }
    }
}

/// The lone multi-level wildcard filter `#` matches every topic name except
/// the server-specific ones, whose first byte is `$`.
pub proof fn lemma_hash_filter_matches_all(tb: Seq<u8>)
    requires
        tb.len() > 0,
    ensures
        filter_matches(seq![0x23u8], tb) <==> tb[0] != 0x24,
{
    let fb: Seq<u8> = seq![0x23u8];
    assert(fb[0] != 0x2f);
    lemma_split_levels_whole(fb);
    let f = split_levels(fb);
    assert(f == seq![fb]);
    let t = split_levels(tb);
    lemma_first_slash_spec(tb);
    if 0 <= first_slash(tb) < tb.len() {
        assert(t[0] =~= tb.subrange(0, first_slash(tb)));
    }
    if tb[0] == 0x24 {
        assert(tb[0] != 0x2f);
        assert(t[0].len() > 0 && t[0][0] == 0x24);
        assert(f[0] != t[0]);
    } else {
        if t[0].len() > 0 {
            assert(t[0][0] == tb[0]);
        }
        assert(f[0] == seq![0x23u8]);
        assert(levels_match(f, t));
    }
}

} // verus!
