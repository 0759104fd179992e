//! Response headers: which the host can send, and the one value it sends for
//! each name.
//!
//! A header's value is sent only if hyper accepts it.  A header is stored
//! under its name as hyper's `HeaderMap::insert` takes a `&'static str` name:
//! a name of up to 64 bytes must consist of token bytes, a name of 65 to 65535
//! bytes is taken as it is, and any other name is refused.  Names are compared
//! by their bytes mapped through hyper's name table (ASCII lower case, other
//! bytes to zero), and a later header replaces the value of an earlier one of
//! the same name while keeping its place.
use vstd::prelude::*;
use vstd::utf8::encode_utf8;

use hyper::header::{HeaderName, HeaderValue, InvalidHeaderName, InvalidHeaderValue};

verus! {

/// hyper's `HeaderValue` (http 0.2), carried opaquely.
#[verifier::external_type_specification]
#[verifier::external_body]
pub struct ExHeaderValue(HeaderValue);

/// The error of `HeaderValue::from_str`, carried opaquely.
#[verifier::external_type_specification]
#[verifier::external_body]
pub struct ExInvalidHeaderValue(InvalidHeaderValue);

/// hyper's `HeaderName` (http 0.2), carried opaquely.
#[verifier::external_type_specification]
#[verifier::external_body]
pub struct ExHeaderName(HeaderName);

/// The error of `HeaderName::from_bytes`, carried opaquely.
#[verifier::external_type_specification]
#[verifier::external_body]
pub struct ExInvalidHeaderName(InvalidHeaderName);

/// `HeaderValue::from_str` (http 0.2) accepts a string exactly when every
/// byte of it is a horizontal tab or at least 32 and not 127.
pub assume_specification[ HeaderValue::from_str ](src: &str) -> (r: Result<
    HeaderValue,
    InvalidHeaderValue,
>)
    ensures
        r is Ok <==> valid_header_value_bytes(encode_utf8(src@)),
;

/// `HeaderName::from_bytes` (http 0.2) accepts a name exactly when it has
/// from 1 to 65535 bytes and each byte is a token byte of its table.
pub assume_specification[ HeaderName::from_bytes ](src: &[u8]) -> (r: Result<
    HeaderName,
    InvalidHeaderName,
>)
    ensures
        r is Ok <==> valid_header_name_bytes(src@),
;

/// A response header as the application writes it.
#[derive(Debug)]
pub struct RocHeader {
    pub k: String,
    pub v: String,
}

/// A byte that may stand in a header value.
pub open spec fn valid_header_value_byte(b: u8) -> bool {
    (b >= 32 && b != 127) || b == 9
}

/// Every byte may stand in a header value.
pub open spec fn valid_header_value_bytes(bytes: Seq<u8>) -> bool {
    forall|i: int| 0 <= i < bytes.len() ==> valid_header_value_byte(#[trigger] bytes[i])
}

/// A byte that may stand in a header name: ``!"#$%&'*+-.^_`|~``, digits and letters.
pub open spec fn header_name_byte(b: u8) -> bool {
    (33 <= b <= 39) || b == 42 || b == 43 || b == 45 || b == 46 || (48 <= b <= 57) || (65
        <= b <= 90) || (94 <= b <= 122) || b == 124 || b == 126
}

/// A name of 1 to 65535 bytes, each of which may stand in a header name.
pub open spec fn valid_header_name_bytes(bytes: Seq<u8>) -> bool {
    &&& 1 <= bytes.len() <= 65535
    &&& forall|i: int| 0 <= i < bytes.len() ==> header_name_byte(#[trigger] bytes[i])
}

/// A header whose value can be sent.
pub open spec fn sendable(h: RocHeader) -> bool {
    valid_header_value_bytes(encode_utf8(h.v@))
}

/// A header whose value cannot be sent.
pub open spec fn unsendable(h: RocHeader) -> bool {
    !sendable(h)
}

/// A name that `HeaderMap::insert` takes as a `&'static str`: 1 to 64 token
/// bytes, or 65 to 65535 bytes of any kind.
pub open spec fn insertable_name_bytes(bytes: Seq<u8>) -> bool {
    ||| valid_header_name_bytes(bytes) && bytes.len() <= 64
    ||| 65 <= bytes.len() <= 65535
}

/// A header whose name `HeaderMap::insert` takes.
pub open spec fn insertable_name(h: RocHeader) -> bool {
    insertable_name_bytes(encode_utf8(h.k@))
}

/// A byte in ASCII lower case.
pub open spec fn lower_byte(b: u8) -> u8 {
    if 65 <= b <= 90 {
        (b + 32) as u8
    } else {
        b
    }
}

/// A byte of a name as hyper's name table maps it: a token byte in ASCII
/// lower case, any other byte to zero.
pub open spec fn name_table_byte(b: u8) -> u8 {
    if header_name_byte(b) {
        lower_byte(b)
    } else {
        0
    }
}

/// The name under which a header is stored: its bytes mapped through hyper's
/// name table.
pub open spec fn name_key(name: Seq<char>) -> Seq<u8> {
    encode_utf8(name).map_values(|b: u8| name_table_byte(b))
}

/// Which names an insert takes: every name of 1 to 64 bytes that are all
/// token bytes, whatever its length within that range; every name of 65 to
/// 65535 bytes; no empty name, no name with a non-token byte among its first
/// 64 bytes or less, and no name longer than 65535 bytes.
pub proof fn lemma_insertable_names(bytes: Seq<u8>)
    ensures
        (1 <= bytes.len() <= 64 && (forall|i: int|
            0 <= i < bytes.len() ==> header_name_byte(#[trigger] bytes[i])))
            ==> insertable_name_bytes(bytes),
        (65 <= bytes.len() <= 65535) ==> insertable_name_bytes(bytes),
        (bytes.len() == 0 || bytes.len() > 65535) ==> !insertable_name_bytes(bytes),
        (bytes.len() <= 64 && exists|i: int|
            0 <= i < bytes.len() && !header_name_byte(#[trigger] bytes[i]))
            ==> !insertable_name_bytes(bytes),
{
}

/// The bytes that may stand in a header name are exactly the token bytes:
/// ``!"#$%&'*+-.^_`|~``, digits and ASCII letters.
pub proof fn lemma_header_name_bytes(b: u8)
    ensures
        header_name_byte(b) <==> (b == 33 || b == 34 || b == 35 || b == 36 || b == 37 || b == 38
            || b == 39 || b == 42 || b == 43 || b == 45 || b == 46 || b == 94 || b == 95 || b
            == 96 || b == 124 || b == 126 || (48 <= b <= 57) || (65 <= b <= 90) || (97 <= b
            <= 122)),
{
}

/// Names are stored without regard to ASCII case: a name and the same name
/// with its letters in other cases have the same key.
pub proof fn lemma_name_table_folds_case(b: u8)
    ensures
        65 <= b <= 90 ==> name_table_byte(b) == b + 32 && name_table_byte((b + 32) as u8) == b
            + 32,
        header_name_byte(b) && !(65 <= b <= 90) ==> name_table_byte(b) == b,
        !header_name_byte(b) ==> name_table_byte(b) == 0,
{
}

/// The place of the first header named `key`, or -1 if there is none.
pub open spec fn position_of_name(list: Seq<RocHeader>, key: Seq<u8>) -> int
    decreases list.len(),
{
    if list.len() == 0 {
        -1
    } else if name_key(list[0].k@) == key {
        0
    } else {
        let r = position_of_name(list.drop_first(), key);
        if r < 0 {
            -1
        } else {
            r + 1
        }
    }
}

/// The place of the last header named `key`, or -1 if there is none.
pub open spec fn last_position_of_name(list: Seq<RocHeader>, key: Seq<u8>) -> int
    decreases list.len(),
{
    if list.len() == 0 {
        -1
    } else if name_key(list.last().k@) == key {
        list.len() - 1
    } else {
        last_position_of_name(list.drop_last(), key)
    }
}

/// Stores a header: a header of the same name gets the new value and keeps
/// its place and spelling; a new name goes to the end.
pub open spec fn upsert_header(list: Seq<RocHeader>, h: RocHeader) -> Seq<RocHeader> {
    let p = position_of_name(list, name_key(h.k@));
    if p >= 0 {
        list.update(p, RocHeader { k: list[p].k, v: h.v })
    } else {
        list.push(h)
    }
}

/// The headers stored after storing each of `hs` in order.
pub open spec fn merge_headers(hs: Seq<RocHeader>) -> Seq<RocHeader>
    decreases hs.len(),
{
    if hs.len() == 0 {
        Seq::empty()
    } else {
        upsert_header(merge_headers(hs.drop_last()), hs.last())
    }
}

/// `position_of_name` is the first place of a header named `key`.
pub proof fn lemma_position_of_name(list: Seq<RocHeader>, key: Seq<u8>)
    ensures
        -1 <= position_of_name(list, key) < list.len(),
        position_of_name(list, key) >= 0 ==> name_key(list[position_of_name(list, key)].k@)
            == key,
        forall|j: int|
            0 <= j < list.len() && (position_of_name(list, key) < 0 || j < position_of_name(
                list,
                key,
            )) ==> name_key(#[trigger] list[j].k@) != key,
    decreases list.len(),
{
    if list.len() > 0 && name_key(list[0].k@) != key {
        let rest = list.drop_first();
        lemma_position_of_name(rest, key);
        assert forall|j: int|
            0 <= j < list.len() && (position_of_name(list, key) < 0 || j < position_of_name(
                list,
                key,
            )) implies name_key(#[trigger] list[j].k@) != key by {
            if j > 0 {
                assert(list[j] == rest[j - 1]);
            }
        }
    }
}

/// A place that holds `key`, with no `key` before it, is the first place of `key`;
/// with no `key` anywhere, there is none.
pub proof fn lemma_position_of_name_is(list: Seq<RocHeader>, key: Seq<u8>, p: int)
    requires
        -1 <= p < list.len(),
        p >= 0 ==> name_key(list[p].k@) == key,
        forall|j: int|
            0 <= j < list.len() && (p < 0 || j < p) ==> name_key(#[trigger] list[j].k@) != key,
    ensures
        position_of_name(list, key) == p,
{
    lemma_position_of_name(list, key);
    let q = position_of_name(list, key);
    if q >= 0 && p >= 0 {
        if q < p {
            assert(name_key(list[q].k@) != key);
        } else if p < q {
            assert(name_key(list[p].k@) != key);
        }
    } else if q >= 0 {
        assert(name_key(list[q].k@) != key);
    } else if p >= 0 {
        assert(name_key(list[p].k@) != key);
    }
}

/// `last_position_of_name` is the last place of a header named `key`.
pub proof fn lemma_last_position_of_name(list: Seq<RocHeader>, key: Seq<u8>)
    ensures
        -1 <= last_position_of_name(list, key) < list.len(),
        last_position_of_name(list, key) >= 0 ==> name_key(
            list[last_position_of_name(list, key)].k@,
        ) == key,
        forall|j: int|
            0 <= j < list.len() && last_position_of_name(list, key) < j ==> name_key(
                #[trigger] list[j].k@,
            ) != key,
    decreases list.len(),
{
    if list.len() > 0 && name_key(list.last().k@) != key {
        let rest = list.drop_last();
        lemma_last_position_of_name(rest, key);
        assert forall|j: int|
            0 <= j < list.len() && last_position_of_name(list, key) < j implies name_key(
                #[trigger] list[j].k@,
            ) != key by {
            if j < list.len() - 1 {
                assert(list[j] == rest[j]);
            }
        }
    }
}

/// For every name: the stored headers hold it exactly when some header had
/// it, at one place only, and with the value of the last header of that name.
pub proof fn lemma_merge_last_wins(hs: Seq<RocHeader>, key: Seq<u8>)
    ensures
        ({
            let m = merge_headers(hs);
            let p = position_of_name(m, key);
            let l = last_position_of_name(hs, key);
            &&& (p >= 0 <==> l >= 0)
            &&& p >= 0 ==> m[p].v == hs[l].v
            &&& p >= 0 ==> forall|j: int|
                0 <= j < m.len() && j != p ==> name_key(#[trigger] m[j].k@) != key
        }),
    decreases hs.len(),
{
    if hs.len() == 0 {
        lemma_position_of_name(merge_headers(hs), key);
    } else {
        let prev = hs.drop_last();
        let h = hs.last();
        let m0 = merge_headers(prev);
        let m = merge_headers(hs);
        lemma_merge_last_wins(prev, key);
        lemma_position_of_name(m0, key);
        let hk = name_key(h.k@);
        lemma_position_of_name(m0, hk);
        lemma_merge_last_wins(prev, hk);
        let pm = position_of_name(m0, hk);
        let p0 = position_of_name(m0, key);
        assert(m == upsert_header(m0, h));
        if hk == key {
            assert(last_position_of_name(hs, key) == hs.len() - 1);
            assert(hs[hs.len() - 1] == h);
            if pm >= 0 {
                assert(m == m0.update(pm, RocHeader { k: m0[pm].k, v: h.v }));
                assert(m[pm].k == m0[pm].k);
                assert(m[pm].v == h.v);
                lemma_position_of_name_is(m, key, pm);
            } else {
                assert(m == m0.push(h));
                assert(m[m0.len() as int] == h);
                lemma_position_of_name_is(m, key, m0.len() as int);
            }
        } else {
            let l0 = last_position_of_name(prev, key);
            lemma_last_position_of_name(prev, key);
            assert(last_position_of_name(hs, key) == l0);
            if l0 >= 0 {
                assert(hs[l0] == prev[l0]);
            }
            if pm >= 0 {
                assert(m == m0.update(pm, RocHeader { k: m0[pm].k, v: h.v }));
                assert(m[pm].k == m0[pm].k);
                assert(p0 != pm);
                if p0 >= 0 {
                    assert(m[p0] == m0[p0]);
                }
                lemma_position_of_name_is(m, key, p0);
            } else {
                assert(m == m0.push(h));
                if p0 >= 0 {
                    assert(m[p0] == m0[p0]);
                }
                lemma_position_of_name_is(m, key, p0);
            }
        }
    }
}

/// No two stored headers share a name.
pub proof fn lemma_merge_unique_names(hs: Seq<RocHeader>)
    ensures
        forall|i: int, j: int|
            0 <= i < j < merge_headers(hs).len() ==> name_key(
                #[trigger] merge_headers(hs)[i].k@,
            ) != name_key(#[trigger] merge_headers(hs)[j].k@),
{
    let m = merge_headers(hs);
    assert forall|i: int, j: int| 0 <= i < j < m.len() implies name_key(
        #[trigger] m[i].k@,
    ) != name_key(#[trigger] m[j].k@) by {
        let key = name_key(m[i].k@);
        lemma_merge_last_wins(hs, key);
        lemma_position_of_name(m, key);
    }
}

} // verus!

verus! {

/// A byte of a name as hyper's name table maps it.
pub fn name_table(b: u8) -> (m: u8)
    ensures
        m == name_table_byte(b),
{
    if (33 <= b && b <= 39) || b == 42 || b == 43 || b == 45 || b == 46 || (48 <= b && b <= 57)
        || (94 <= b && b <= 122) || b == 124 || b == 126 {
        b
    } else if 65 <= b && b <= 90 {
        b + 32
    } else {
        0
    }
}

/// Whether two header names are stored as the same name.
pub fn names_match(a: &str, b: &str) -> (same: bool)
    ensures
        same == (name_key(a@) == name_key(b@)),
{
    let x = a.as_bytes();
    let y = b.as_bytes();
    let ghost kx = encode_utf8(a@).map_values(|c: u8| name_table_byte(c));
    let ghost ky = encode_utf8(b@).map_values(|c: u8| name_table_byte(c));
    if x.len() != y.len() {
        assert(kx.len() != ky.len());
        return false;
    }
    let n = x.len();
    let mut i: usize = 0;
    while i < n
        invariant
            n == x@.len(),
            n == y@.len(),
            x@ == encode_utf8(a@),
            y@ == encode_utf8(b@),
            kx == encode_utf8(a@).map_values(|c: u8| name_table_byte(c)),
            ky == encode_utf8(b@).map_values(|c: u8| name_table_byte(c)),
            i <= n,
            forall|j: int| 0 <= j < i ==> kx[j] == ky[j],
        decreases n - i,
    {
        if name_table(x[i]) != name_table(y[i]) {
            assert(kx[i as int] != ky[i as int]);
            return false;
        }
        i = i + 1;
    }
    assert(kx =~= ky);
    true
}

/// Whether a header value can be sent.
pub fn is_sendable_value(value: &str) -> (ok: bool)
    ensures
        ok == valid_header_value_bytes(encode_utf8(value@)),
{
    HeaderValue::from_str(value).is_ok()
}

/// Whether `HeaderMap::insert` takes a header name: a name longer than 64
/// bytes is taken up to 65535 bytes without a look at its bytes; a shorter
/// one exactly when `HeaderName::from_bytes` accepts it.
pub fn is_insertable_name(name: &str) -> (ok: bool)
    ensures
        ok == insertable_name_bytes(encode_utf8(name@)),
{
    let bytes = name.as_bytes();
    if bytes.len() > 64 {
        bytes.len() <= 65535
    } else {
        HeaderName::from_bytes(bytes).is_ok()
    }
}

/// Copies a header.
pub fn copy_header(h: &RocHeader) -> (c: RocHeader)
    ensures
        c == *h,
{
    RocHeader { k: h.k.clone(), v: h.v.clone() }
}

/// The place of the first header with the same name as `name`.
pub fn find_name(list: &Vec<RocHeader>, name: &str) -> (p: Option<usize>)
    ensures
        p == (if position_of_name(list@, name_key(name@)) >= 0 {
            Some(position_of_name(list@, name_key(name@)) as usize)
        } else {
            None::<usize>
        }),
{
    let ghost key = name_key(name@);
    let n = list.len();
    let mut i: usize = 0;
    while i < n
        invariant
            n == list@.len(),
            i <= n,
            key == name_key(name@),
            forall|j: int| 0 <= j < i ==> name_key(#[trigger] list@[j].k@) != key,
        decreases n - i,
    {
        if names_match(list[i].k.as_str(), name) {
            proof {
                lemma_position_of_name_is(list@, key, i as int);
            }
            return Some(i);
        }
        i = i + 1;
    }
    proof {
        lemma_position_of_name_is(list@, key, -1);
    }
    None
}

/// Stores a header: a header of the same name gets the new value, keeping its
/// place and spelling; a new name goes to the end.
pub fn upsert(list: &mut Vec<RocHeader>, h: &RocHeader)
    ensures
        final(list)@ == upsert_header(old(list)@, *h),
{
    let ghost before = list@;
    proof {
        lemma_position_of_name(list@, name_key(h.k@));
    }
    let name = h.k.as_str();
    assert(name_key(name@) == name_key(h.k@));
    match find_name(list, name) {
        Some(p) => {
            let entry = RocHeader { k: list[p].k.clone(), v: h.v.clone() };
            assert(entry == RocHeader { k: before[p as int].k, v: h.v });
            list.set(p, entry);
            assert(list@ =~= before.update(p as int, entry));
            assert(list@ == upsert_header(before, *h));
        },
        None => {
            let c = copy_header(h);
            list.push(c);
            assert(list@ =~= before.push(*h));
            assert(list@ == upsert_header(before, *h));
        },
    }
}

/// The headers that the host sends, and those it leaves out, for the
/// application's headers in order: a header whose value cannot be sent is
/// left out; any other is stored by name.  `Err(i)` when the header at `i` is
/// the first whose value can be sent but whose name hyper refuses.
pub fn select_headers(headers: &Vec<RocHeader>) -> (r: Result<
    (Vec<RocHeader>, Vec<RocHeader>),
    usize,
>)
    ensures
        match r {
            Ok((sent, rejected)) => {
                &&& forall|j: int|
                    0 <= j < headers@.len() && sendable(#[trigger] headers@[j]) ==> insertable_name(
                        headers@[j],
                    )
                &&& sent@ == merge_headers(headers@.filter(|h: RocHeader| sendable(h)))
                &&& rejected@ == headers@.filter(|h: RocHeader| unsendable(h))
            },
            Err(i) => {
                &&& i < headers@.len()
                &&& sendable(headers@[i as int])
                &&& !insertable_name(headers@[i as int])
                &&& forall|j: int|
                    0 <= j < i && sendable(#[trigger] headers@[j]) ==> insertable_name(headers@[j])
            },
        },
{
    let mut sent: Vec<RocHeader> = Vec::new();
    let mut rejected: Vec<RocHeader> = Vec::new();
    let n = headers.len();
    for i in 0..n
        invariant
            n == headers@.len(),
            sent@ == merge_headers(headers@.take(i as int).filter(|h: RocHeader| sendable(h))),
            rejected@ == headers@.take(i as int).filter(|h: RocHeader| unsendable(h)),
            forall|j: int|
                0 <= j < i && sendable(#[trigger] headers@[j]) ==> insertable_name(headers@[j]),
    {
        let h = &headers[i];
        let ghost prev = headers@.take(i as int);
        let ghost next = headers@.take(i + 1);
        proof {
            reveal(Seq::filter);
            assert(next.drop_last() == prev);
            assert(next.last() == headers@[i as int]);
        }
        if is_sendable_value(h.v.as_str()) {
            if !is_insertable_name(h.k.as_str()) {
                return Err(i);
            }
            proof {
                let fp = prev.filter(|h: RocHeader| sendable(h));
                let fnx = next.filter(|h: RocHeader| sendable(h));
                assert(fnx == fp.push(headers@[i as int]));
                assert(fnx.drop_last() == fp);
                assert(fnx.last() == headers@[i as int]);
            }
            upsert(&mut sent, h);
        } else {
            rejected.push(copy_header(h));
        }
    }
    assert(headers@.take(n as int) == headers@);
    Ok((sent, rejected))
}

/// Every header of the application either has a value that can be sent or is
/// reported as rejected, and none is both.
pub proof fn lemma_headers_partitioned(headers: Seq<RocHeader>)
    ensures
        headers.filter(|h: RocHeader| sendable(h)).len() + headers.filter(
            |h: RocHeader| unsendable(h),
        ).len() == headers.len(),
    decreases headers.len(),
{
    reveal(Seq::filter);
    if headers.len() > 0 {
        lemma_headers_partitioned(headers.drop_last());
    }
}

} // verus!
