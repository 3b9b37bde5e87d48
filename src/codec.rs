//! The binary record codec: fixed-width keys as raw bytes, counts and text
//! lengths as 4-byte little-endian prefixes, text as its UTF-8 bytes.
use vstd::prelude::*;
use vstd::utf8::*;

verus! {

broadcast use vstd::utf8::encode_utf8_valid_utf8, vstd::utf8::encode_utf8_decode_utf8;

/// Largest value a 4-byte length or count prefix can carry.
pub const PREFIX_MAX: u64 = 0xffff_ffff;

/// The four little-endian bytes of `n`.
pub open spec fn le_u32(n: u32) -> Seq<u8> {
    seq![n as u8, (n >> 8u32) as u8, (n >> 16u32) as u8, (n >> 24u32) as u8]
}

/// The number held by the four little-endian bytes of `b` from `p` on.
pub open spec fn u32_at(b: Seq<u8>, p: int) -> u32 {
    (b[p] as u32) | ((b[p + 1] as u32) << 8u32) | ((b[p + 2] as u32) << 16u32) | ((b[p + 3]
        as u32) << 24u32)
}

/// The four big-endian bytes of `n`.
pub open spec fn be_u32(n: u32) -> Seq<u8> {
    seq![(n >> 24u32) as u8, (n >> 16u32) as u8, (n >> 8u32) as u8, n as u8]
}

/// The number held by the four big-endian bytes of `b` from `p` on.
pub open spec fn be_u32_at(b: Seq<u8>, p: int) -> u32 {
    ((b[p] as u32) << 24u32) | ((b[p + 1] as u32) << 16u32) | ((b[p + 2] as u32) << 8u32) | (b[p
        + 3] as u32)
}

pub proof fn lemma_u32_le_round_trip(n: u32)
    ensures
        u32_at(le_u32(n), 0) == n,
{
    let b = le_u32(n);
    let (b0, b1, b2, b3) = (b[0], b[1], b[2], b[3]);
    assert(((b0 as u32) | ((b1 as u32) << 8u32) | ((b2 as u32) << 16u32) | ((b3 as u32)
        << 24u32)) == n) by (bit_vector)
        requires
            b0 == n as u8,
            b1 == (n >> 8u32) as u8,
            b2 == (n >> 16u32) as u8,
            b3 == (n >> 24u32) as u8,
    ;
}

pub proof fn lemma_u32_be_round_trip(n: u32)
    ensures
        be_u32_at(be_u32(n), 0) == n,
{
    let b = be_u32(n);
    let (b0, b1, b2, b3) = (b[0], b[1], b[2], b[3]);
    assert((((b0 as u32) << 24u32) | ((b1 as u32) << 16u32) | ((b2 as u32) << 8u32) | (b3
        as u32)) == n) by (bit_vector)
        requires
            b0 == (n >> 24u32) as u8,
            b1 == (n >> 16u32) as u8,
            b2 == (n >> 8u32) as u8,
            b3 == n as u8,
    ;
}

/// Appends the little-endian bytes of `n`.
pub fn write_u32_le(out: &mut Vec<u8>, n: u32)
    ensures
        final(out)@ == old(out)@ + le_u32(n),
{
    out.push(n as u8);
    out.push((n >> 8u32) as u8);
    out.push((n >> 16u32) as u8);
    out.push((n >> 24u32) as u8);
    assert(final(out)@ =~= old(out)@ + le_u32(n));
}

/// Reads the little-endian number at `p`, if four bytes are there.
pub fn read_u32_le(b: &[u8], p: usize) -> (r: Option<u32>)
    ensures
        r == (if p + 4 <= b@.len() {
            Some(u32_at(b@, p as int))
        } else {
            None::<u32>
        }),
{
    if b.len() < 4 || p > b.len() - 4 {
        return None;
    }
    let v = (b[p] as u32) | ((b[p + 1] as u32) << 8u32) | ((b[p + 2] as u32) << 16u32) | ((b[p
        + 3] as u32) << 24u32);
    Some(v)
}


/// Relies on `String::from_utf8`: it accepts exactly the well-formed UTF-8
/// byte sequences and then holds the characters they encode.
#[verifier::external_body]
pub(crate) fn string_from_utf8(bytes: Vec<u8>) -> (r: Option<String>)
    ensures
        r is Some <==> valid_utf8(bytes@),
        r matches Some(s) ==> s@ == decode_utf8(bytes@),
{
    String::from_utf8(bytes).ok()
}

/// The UTF-8 text `s` fits under a 4-byte length prefix.
pub open spec fn str_fits(s: Seq<char>) -> bool {
    encode_utf8(s).len() <= PREFIX_MAX
}

/// A text value: the length of its UTF-8 bytes, then those bytes.
pub open spec fn enc_str(s: Seq<char>) -> Seq<u8> {
    le_u32(encode_utf8(s).len() as u32) + encode_utf8(s)
}

/// Reads a text value at `p`: its character sequence and the position after it.
pub open spec fn parse_str(b: Seq<u8>, p: int) -> Option<(Seq<char>, int)> {
    if 0 <= p && p + 4 <= b.len() {
        let q = p + 4;
        let n = u32_at(b, p) as int;
        if q + n <= b.len() && valid_utf8(b.subrange(q, q + n)) {
            Some((decode_utf8(b.subrange(q, q + n)), q + n))
        } else {
            None
        }
    } else {
        None
    }
}

/// Appends the encoding of the text `s`.
pub fn write_string(out: &mut Vec<u8>, s: &String)
    requires
        str_fits(s@),
    ensures
        final(out)@ == old(out)@ + enc_str(s@),
{
    let bytes = s.as_str().as_bytes();
    assert(bytes@ == encode_utf8(s@));
    write_u32_le(out, bytes.len() as u32);
    let ghost start = out@;
    let mut i: usize = 0;
    while i < bytes.len()
        invariant
            i <= bytes@.len(),
            out@ == start + bytes@.subrange(0, i as int),
            start == old(out)@ + le_u32(bytes@.len() as u32),
        decreases bytes@.len() - i,
    {
        out.push(bytes[i]);
        i = i + 1;
        assert(out@ =~= start + bytes@.subrange(0, i as int));
    }
    assert(bytes@.subrange(0, i as int) =~= bytes@);
    assert(out@ =~= old(out)@ + enc_str(s@));
}

/// Reads the text value at `p`.
pub fn read_string(b: &[u8], p: usize) -> (r: Option<(String, usize)>)
    ensures
        match parse_str(b@, p as int) {
            None => r is None,
            Some((s, q)) => r matches Some((t, e)) && t@ == s && e == q,
        },
{
    if b.len() < 4 || p > b.len() - 4 {
        return None;
    }
    let r0 = read_u32_le(b, p);
    if r0.is_none() {
        return None;
    }
    let n = r0.unwrap();
    let q = p + 4;
    if n as usize > b.len() - q {
        return None;
    }
    let end = q + n as usize;
    let mut bytes: Vec<u8> = Vec::new();
    let mut i: usize = q;
    while i < end
        invariant
            q <= i <= end <= b@.len(),
            bytes@ == b@.subrange(q as int, i as int),
        decreases end - i,
    {
        bytes.push(b[i]);
        i = i + 1;
        assert(bytes@ =~= b@.subrange(q as int, i as int));
    }
    match string_from_utf8(bytes) {
        None => None,
        Some(s) => Some((s, end)),
    }
}

/// Reading back what `enc_str` wrote yields the same text.
pub proof fn lemma_parse_str(b: Seq<u8>, p: int, s: Seq<char>)
    requires
        str_fits(s),
        0 <= p,
        p + enc_str(s).len() <= b.len(),
        b.subrange(p, p + enc_str(s).len()) == enc_str(s),
    ensures
        parse_str(b, p) == Some((s, p + enc_str(s).len())),
{
    let e = encode_utf8(s);
    let n = e.len() as u32;
    lemma_u32_le_round_trip(n);
    assert(b.subrange(p, p + 4) =~= le_u32(n)) by {
        assert(enc_str(s).subrange(0, 4) =~= le_u32(n));
        assert(b.subrange(p, p + 4) =~= b.subrange(p, p + enc_str(s).len()).subrange(0, 4));
    }
    assert(u32_at(b, p) == u32_at(le_u32(n), 0)) by {
        assert(b[p] == b.subrange(p, p + 4)[0]);
        assert(b[p + 1] == b.subrange(p, p + 4)[1]);
        assert(b[p + 2] == b.subrange(p, p + 4)[2]);
        assert(b[p + 3] == b.subrange(p, p + 4)[3]);
    }
    assert(b.subrange(p + 4, p + 4 + e.len()) =~= e) by {
        assert(b.subrange(p + 4, p + 4 + e.len()) =~= b.subrange(p, p + enc_str(s).len()).subrange(
            4,
            4 + e.len() as int,
        ));
        assert(enc_str(s).subrange(4, 4 + e.len() as int) =~= e);
    }
}


/// Every text in `v` fits under its prefix, and so does the count.
pub open spec fn strs_fit(v: Seq<Seq<char>>) -> bool {
    &&& v.len() <= PREFIX_MAX
    &&& forall|i: int| 0 <= i < v.len() ==> str_fits(#[trigger] v[i])
}

/// The texts of `v`, one after the other, without a count.
pub open spec fn enc_str_items(v: Seq<Seq<char>>) -> Seq<u8>
    decreases v.len(),
{
    if v.len() == 0 {
        Seq::empty()
    } else {
        enc_str_items(v.drop_last()) + enc_str(v.last())
    }
}

/// A sequence of texts: its count, then each text.
pub open spec fn enc_strs(v: Seq<Seq<char>>) -> Seq<u8> {
    le_u32(v.len() as u32) + enc_str_items(v)
}

/// Reads `n` texts one after the other from `p` on.
pub open spec fn parse_str_items(b: Seq<u8>, p: int, n: nat) -> Option<(Seq<Seq<char>>, int)>
    decreases n,
{
    if n == 0 {
        Some((Seq::empty(), p))
    } else {
        match parse_str_items(b, p, (n - 1) as nat) {
            None => None,
            Some((v, q)) => match parse_str(b, q) {
                None => None,
                Some((s, e)) => Some((v.push(s), e)),
            },
        }
    }
}

/// Reads a counted sequence of texts at `p`.
pub open spec fn parse_strs(b: Seq<u8>, p: int) -> Option<(Seq<Seq<char>>, int)> {
    if 0 <= p && p + 4 <= b.len() {
        parse_str_items(b, p + 4, u32_at(b, p) as nat)
    } else {
        None
    }
}

/// Appends the encoding of the texts `v`.
pub fn write_strings(out: &mut Vec<u8>, v: &Vec<String>)
    requires
        strs_fit(v.deep_view()),
    ensures
        final(out)@ == old(out)@ + enc_strs(v.deep_view()),
{
    let ghost dv = v.deep_view();
    write_u32_le(out, v.len() as u32);
    let ghost start = out@;
    let mut i: usize = 0;
    while i < v.len()
        invariant
            i <= v@.len(),
            dv == v.deep_view(),
            strs_fit(dv),
            out@ == start + enc_str_items(dv.take(i as int)),
        decreases v@.len() - i,
    {
        assert(str_fits(dv[i as int]));
        write_string(out, &v[i]);
        assert(dv.take(i + 1).drop_last() =~= dv.take(i as int));
        i = i + 1;
        assert(out@ =~= start + enc_str_items(dv.take(i as int)));
    }
    assert(dv.take(i as int) =~= dv);
    assert(out@ =~= old(out)@ + enc_strs(dv));
}

/// Once a text fails to read, every longer run of texts fails too.
pub proof fn lemma_str_items_stop(b: Seq<u8>, p: int, i: nat, k: nat)
    requires
        i < k,
        parse_str_items(b, p, i) matches Some((v, q)) && parse_str(b, q) is None,
    ensures
        parse_str_items(b, p, k) is None,
    decreases k,
{
    if k > i + 1 {
        lemma_str_items_stop(b, p, i, (k - 1) as nat);
    }
}

/// Reads the counted sequence of texts at `p`.
pub fn read_strings(b: &[u8], p: usize) -> (r: Option<(Vec<String>, usize)>)
    ensures
        match parse_strs(b@, p as int) {
            None => r is None,
            Some((v, q)) => r matches Some((t, e)) && t.deep_view() == v && e == q,
        },
{
    if b.len() < 4 || p > b.len() - 4 {
        return None;
    }
    let n = read_u32_le(b, p).unwrap();
    let mut items: Vec<String> = Vec::new();
    let mut pos: usize = p + 4;
    let mut i: u32 = 0;
    while i < n
        invariant
            i <= n,
            n == u32_at(b@, p as int),
            parse_str_items(b@, p + 4, i as nat) == Some((items.deep_view(), pos as int)),
        decreases n - i,
    {
        match read_string(b, pos) {
            None => {
                proof {
                    lemma_str_items_stop(b@, p + 4, i as nat, n as nat);
                }
                return None;
            },
            Some((s, e)) => {
                let ghost before = items.deep_view();
                items.push(s);
                assert(items.deep_view() =~= before.push(s@));
                pos = e;
            },
        }
        i = i + 1;
    }
    Some((items, pos))
}

/// Reading back what `enc_str_items` wrote yields the same texts.
pub proof fn lemma_parse_str_items(b: Seq<u8>, p: int, v: Seq<Seq<char>>)
    requires
        strs_fit(v),
        0 <= p,
        p + enc_str_items(v).len() <= b.len(),
        b.subrange(p, p + enc_str_items(v).len()) == enc_str_items(v),
    ensures
        parse_str_items(b, p, v.len()) == Some((v, p + enc_str_items(v).len())),
    decreases v.len(),
{
    if v.len() > 0 {
        let init = v.drop_last();
        let li = enc_str_items(init).len();
        let whole = enc_str_items(v);
        assert(whole == enc_str_items(init) + enc_str(v.last()));
        assert(str_fits(v[v.len() - 1]));
        assert(b.subrange(p, p + li) =~= enc_str_items(init)) by {
            assert(b.subrange(p, p + li) =~= b.subrange(p, p + whole.len()).subrange(0, li as int));
        }
        lemma_parse_str_items(b, p, init);
        assert(b.subrange(p + li, p + whole.len()) =~= enc_str(v.last())) by {
            assert(b.subrange(p + li, p + whole.len()) =~= b.subrange(p, p + whole.len()).subrange(
                li as int,
                whole.len() as int,
            ));
        }
        lemma_parse_str(b, p + li, v.last());
        assert(init.push(v.last()) =~= v);
    }
}

/// Reading back what `enc_strs` wrote yields the same texts.
pub proof fn lemma_parse_strs(b: Seq<u8>, p: int, v: Seq<Seq<char>>)
    requires
        strs_fit(v),
        0 <= p,
        p + enc_strs(v).len() <= b.len(),
        b.subrange(p, p + enc_strs(v).len()) == enc_strs(v),
    ensures
        parse_strs(b, p) == Some((v, p + enc_strs(v).len())),
{
    let n = v.len() as u32;
    let whole = enc_strs(v);
    lemma_u32_le_round_trip(n);
    assert(b.subrange(p, p + 4) =~= le_u32(n)) by {
        assert(b.subrange(p, p + 4) =~= b.subrange(p, p + whole.len()).subrange(0, 4));
    }
    assert(u32_at(b, p) == u32_at(le_u32(n), 0)) by {
        assert(b[p] == b.subrange(p, p + 4)[0]);
        assert(b[p + 1] == b.subrange(p, p + 4)[1]);
        assert(b[p + 2] == b.subrange(p, p + 4)[2]);
        assert(b[p + 3] == b.subrange(p, p + 4)[3]);
    }
    assert(b.subrange(p + 4, p + whole.len()) =~= enc_str_items(v)) by {
        assert(b.subrange(p + 4, p + whole.len()) =~= b.subrange(p, p + whole.len()).subrange(
            4,
            whole.len() as int,
        ));
    }
    lemma_parse_str_items(b, p + 4, v);
}

/// Every list in `v` fits under its prefixes, and so does the count.
pub open spec fn lists_fit(v: Seq<Seq<Seq<char>>>) -> bool {
    &&& v.len() <= PREFIX_MAX
    &&& forall|i: int| 0 <= i < v.len() ==> strs_fit(#[trigger] v[i])
}

/// The lists of `v`, one after the other, without a count.
pub open spec fn enc_list_items(v: Seq<Seq<Seq<char>>>) -> Seq<u8>
    decreases v.len(),
{
    if v.len() == 0 {
        Seq::empty()
    } else {
        enc_list_items(v.drop_last()) + enc_strs(v.last())
    }
}

/// A sequence of lists of texts: its count, then each list.
pub open spec fn enc_lists(v: Seq<Seq<Seq<char>>>) -> Seq<u8> {
    le_u32(v.len() as u32) + enc_list_items(v)
}

/// Reads `n` lists one after the other from `p` on.
pub open spec fn parse_list_items(b: Seq<u8>, p: int, n: nat) -> Option<(Seq<Seq<Seq<char>>>, int)>
    decreases n,
{
    if n == 0 {
        Some((Seq::empty(), p))
    } else {
        match parse_list_items(b, p, (n - 1) as nat) {
            None => None,
            Some((v, q)) => match parse_strs(b, q) {
                None => None,
                Some((s, e)) => Some((v.push(s), e)),
            },
        }
    }
}

/// Reads a counted sequence of lists of texts at `p`.
pub open spec fn parse_lists(b: Seq<u8>, p: int) -> Option<(Seq<Seq<Seq<char>>>, int)> {
    if 0 <= p && p + 4 <= b.len() {
        parse_list_items(b, p + 4, u32_at(b, p) as nat)
    } else {
        None
    }
}

/// Appends the encoding of the lists `v`.
pub fn write_lists(out: &mut Vec<u8>, v: &Vec<Vec<String>>)
    requires
        lists_fit(v.deep_view()),
    ensures
        final(out)@ == old(out)@ + enc_lists(v.deep_view()),
{
    let ghost dv = v.deep_view();
    write_u32_le(out, v.len() as u32);
    let ghost start = out@;
    let mut i: usize = 0;
    while i < v.len()
        invariant
            i <= v@.len(),
            dv == v.deep_view(),
            lists_fit(dv),
            out@ == start + enc_list_items(dv.take(i as int)),
        decreases v@.len() - i,
    {
        assert(strs_fit(dv[i as int]));
        write_strings(out, &v[i]);
        assert(dv.take(i + 1).drop_last() =~= dv.take(i as int));
        i = i + 1;
        assert(out@ =~= start + enc_list_items(dv.take(i as int)));
    }
    assert(dv.take(i as int) =~= dv);
    assert(out@ =~= old(out)@ + enc_lists(dv));
}

/// Once a list fails to read, every longer run of lists fails too.
pub proof fn lemma_list_items_stop(b: Seq<u8>, p: int, i: nat, k: nat)
    requires
        i < k,
        parse_list_items(b, p, i) matches Some((v, q)) && parse_strs(b, q) is None,
    ensures
        parse_list_items(b, p, k) is None,
    decreases k,
{
    if k > i + 1 {
        lemma_list_items_stop(b, p, i, (k - 1) as nat);
    }
}

/// Reads the counted sequence of lists of texts at `p`.
pub fn read_lists(b: &[u8], p: usize) -> (r: Option<(Vec<Vec<String>>, usize)>)
    ensures
        match parse_lists(b@, p as int) {
            None => r is None,
            Some((v, q)) => r matches Some((t, e)) && t.deep_view() == v && e == q,
        },
{
    if b.len() < 4 || p > b.len() - 4 {
        return None;
    }
    let n = read_u32_le(b, p).unwrap();
    let mut items: Vec<Vec<String>> = Vec::new();
    let mut pos: usize = p + 4;
    let mut i: u32 = 0;
    while i < n
        invariant
            i <= n,
            n == u32_at(b@, p as int),
            parse_list_items(b@, p + 4, i as nat) == Some((items.deep_view(), pos as int)),
        decreases n - i,
    {
        match read_strings(b, pos) {
            None => {
                proof {
                    lemma_list_items_stop(b@, p + 4, i as nat, n as nat);
                }
                return None;
            },
            Some((s, e)) => {
                let ghost before = items.deep_view();
                items.push(s);
                assert(items.deep_view() =~= before.push(s.deep_view()));
                pos = e;
            },
        }
        i = i + 1;
    }
    Some((items, pos))
}

/// Reading back what `enc_list_items` wrote yields the same lists.
pub proof fn lemma_parse_list_items(b: Seq<u8>, p: int, v: Seq<Seq<Seq<char>>>)
    requires
        lists_fit(v),
        0 <= p,
        p + enc_list_items(v).len() <= b.len(),
        b.subrange(p, p + enc_list_items(v).len()) == enc_list_items(v),
    ensures
        parse_list_items(b, p, v.len()) == Some((v, p + enc_list_items(v).len())),
    decreases v.len(),
{
    if v.len() > 0 {
        let init = v.drop_last();
        let li = enc_list_items(init).len();
        let whole = enc_list_items(v);
        assert(whole == enc_list_items(init) + enc_strs(v.last()));
        assert(strs_fit(v[v.len() - 1]));
        assert(b.subrange(p, p + li) =~= enc_list_items(init)) by {
            assert(b.subrange(p, p + li) =~= b.subrange(p, p + whole.len()).subrange(0, li as int));
        }
        lemma_parse_list_items(b, p, init);
        assert(b.subrange(p + li, p + whole.len()) =~= enc_strs(v.last())) by {
            assert(b.subrange(p + li, p + whole.len()) =~= b.subrange(p, p + whole.len()).subrange(
                li as int,
                whole.len() as int,
            ));
        }
        lemma_parse_strs(b, p + li, v.last());
        assert(init.push(v.last()) =~= v);
    }
}

/// Reading back what `enc_lists` wrote yields the same lists.
pub proof fn lemma_parse_lists(b: Seq<u8>, p: int, v: Seq<Seq<Seq<char>>>)
    requires
        lists_fit(v),
        0 <= p,
        p + enc_lists(v).len() <= b.len(),
        b.subrange(p, p + enc_lists(v).len()) == enc_lists(v),
    ensures
        parse_lists(b, p) == Some((v, p + enc_lists(v).len())),
{
    let n = v.len() as u32;
    let whole = enc_lists(v);
    lemma_u32_le_round_trip(n);
    assert(b.subrange(p, p + 4) =~= le_u32(n)) by {
        assert(b.subrange(p, p + 4) =~= b.subrange(p, p + whole.len()).subrange(0, 4));
    }
    assert(u32_at(b, p) == u32_at(le_u32(n), 0)) by {
        assert(b[p] == b.subrange(p, p + 4)[0]);
        assert(b[p + 1] == b.subrange(p, p + 4)[1]);
        assert(b[p + 2] == b.subrange(p, p + 4)[2]);
        assert(b[p + 3] == b.subrange(p, p + 4)[3]);
    }
    assert(b.subrange(p + 4, p + whole.len()) =~= enc_list_items(v)) by {
        assert(b.subrange(p + 4, p + whole.len()) =~= b.subrange(p, p + whole.len()).subrange(
            4,
            whole.len() as int,
        ));
    }
    lemma_parse_list_items(b, p + 4, v);
}


/// The eight little-endian bytes of `n`.
pub open spec fn le_u64(n: u64) -> Seq<u8> {
    seq![
        n as u8,
        (n >> 8u64) as u8,
        (n >> 16u64) as u8,
        (n >> 24u64) as u8,
        (n >> 32u64) as u8,
        (n >> 40u64) as u8,
        (n >> 48u64) as u8,
        (n >> 56u64) as u8,
    ]
}

/// The number held by the eight little-endian bytes of `b` from `p` on.
pub open spec fn u64_at(b: Seq<u8>, p: int) -> u64 {
    (b[p] as u64) | ((b[p + 1] as u64) << 8u64) | ((b[p + 2] as u64) << 16u64) | ((b[p + 3]
        as u64) << 24u64) | ((b[p + 4] as u64) << 32u64) | ((b[p + 5] as u64) << 40u64) | ((b[p
        + 6] as u64) << 48u64) | ((b[p + 7] as u64) << 56u64)
}

pub proof fn lemma_u64_le_round_trip(n: u64)
    ensures
        u64_at(le_u64(n), 0) == n,
{
    let b = le_u64(n);
    let (b0, b1, b2, b3, b4, b5, b6, b7) = (b[0], b[1], b[2], b[3], b[4], b[5], b[6], b[7]);
    assert(((b0 as u64) | ((b1 as u64) << 8u64) | ((b2 as u64) << 16u64) | ((b3 as u64)
        << 24u64) | ((b4 as u64) << 32u64) | ((b5 as u64) << 40u64) | ((b6 as u64) << 48u64) | ((
    b7 as u64) << 56u64)) == n) by (bit_vector)
        requires
            b0 == n as u8,
            b1 == (n >> 8u64) as u8,
            b2 == (n >> 16u64) as u8,
            b3 == (n >> 24u64) as u8,
            b4 == (n >> 32u64) as u8,
            b5 == (n >> 40u64) as u8,
            b6 == (n >> 48u64) as u8,
            b7 == (n >> 56u64) as u8,
    ;
}

/// Appends the little-endian bytes of `n`.
pub fn write_u64_le(out: &mut Vec<u8>, n: u64)
    ensures
        final(out)@ == old(out)@ + le_u64(n),
{
    out.push(n as u8);
    out.push((n >> 8u64) as u8);
    out.push((n >> 16u64) as u8);
    out.push((n >> 24u64) as u8);
    out.push((n >> 32u64) as u8);
    out.push((n >> 40u64) as u8);
    out.push((n >> 48u64) as u8);
    out.push((n >> 56u64) as u8);
    assert(final(out)@ =~= old(out)@ + le_u64(n));
}

/// Reads the little-endian number at `p`, if eight bytes are there.
pub fn read_u64_le(b: &[u8], p: usize) -> (r: Option<u64>)
    ensures
        r == (if p + 8 <= b@.len() {
            Some(u64_at(b@, p as int))
        } else {
            None::<u64>
        }),
{
    if b.len() < 8 || p > b.len() - 8 {
        return None;
    }
    let v = (b[p] as u64) | ((b[p + 1] as u64) << 8u64) | ((b[p + 2] as u64) << 16u64) | ((b[p
        + 3] as u64) << 24u64) | ((b[p + 4] as u64) << 32u64) | ((b[p + 5] as u64) << 40u64) | ((
    b[p + 6] as u64) << 48u64) | ((b[p + 7] as u64) << 56u64);
    Some(v)
}

/// A flag: one byte, 1 for true and 0 for false.
pub open spec fn enc_bool(x: bool) -> Seq<u8> {
    seq![if x { 1u8 } else { 0u8 }]
}

/// Reads a flag at `p`; any byte other than 0 or 1 is refused.
pub open spec fn parse_bool(b: Seq<u8>, p: int) -> Option<(bool, int)> {
    if 0 <= p < b.len() && b[p] <= 1 {
        Some((b[p] == 1, p + 1))
    } else {
        None
    }
}

pub fn write_bool(out: &mut Vec<u8>, x: bool)
    ensures
        final(out)@ == old(out)@ + enc_bool(x),
{
    out.push(if x { 1u8 } else { 0u8 });
    assert(final(out)@ =~= old(out)@ + enc_bool(x));
}

pub fn read_bool(b: &[u8], p: usize) -> (r: Option<(bool, usize)>)
    ensures
        match parse_bool(b@, p as int) {
            None => r is None,
            Some((x, q)) => r == Some((x, q as usize)),
        },
{
    if p < b.len() && b[p] <= 1 {
        Some((b[p] == 1, p + 1))
    } else {
        None
    }
}

/// Reads a 32-byte key at `p`.
pub open spec fn parse_key(b: Seq<u8>, p: int) -> Option<(Seq<u8>, int)> {
    if 0 <= p && p + 32 <= b.len() {
        Some((b.subrange(p, p + 32), p + 32))
    } else {
        None
    }
}

/// Appends a 32-byte key as it stands.
pub fn write_key(out: &mut Vec<u8>, k: &[u8; 32])
    ensures
        final(out)@ == old(out)@ + k@,
{
    let ghost start = out@;
    let mut i: usize = 0;
    while i < 32
        invariant
            i <= 32,
            k@.len() == 32,
            out@ == start + k@.subrange(0, i as int),
            start == old(out)@,
        decreases 32 - i,
    {
        out.push(k[i]);
        i = i + 1;
        assert(out@ =~= start + k@.subrange(0, i as int));
    }
    assert(k@.subrange(0, 32) =~= k@);
}

pub fn read_key(b: &[u8], p: usize) -> (r: Option<([u8; 32], usize)>)
    ensures
        match parse_key(b@, p as int) {
            None => r is None,
            Some((k, q)) => r matches Some((x, e)) && x@ == k && e == q,
        },
{
    if b.len() < 32 || p > b.len() - 32 {
        return None;
    }
    let mut k = [0u8; 32];
    let mut i: usize = 0;
    while i < 32
        invariant
            i <= 32,
            p + 32 <= b.len(),
            k@.len() == 32,
            forall|j: int| 0 <= j < i ==> k@[j] == b@[p + j],
        decreases 32 - i,
    {
        k[i] = b[p + i];
        i = i + 1;
    }
    assert(k@ =~= b@.subrange(p as int, p + 32));
    Some((k, p + 32))
}

/// Whether two keys hold the same bytes.
pub fn same_key(a: &[u8; 32], b: &[u8; 32]) -> (r: bool)
    ensures
        r == (a@ == b@),
{
    let mut i: usize = 0;
    while i < 32
        invariant
            i <= 32,
            a@.len() == 32,
            b@.len() == 32,
            forall|j: int| 0 <= j < i ==> a@[j] == b@[j],
        decreases 32 - i,
    {
        if a[i] != b[i] {
            return false;
        }
        i = i + 1;
    }
    assert(a@ =~= b@);
    true
}

} // verus!
