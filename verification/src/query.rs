//! Query-string interpretation: splitting `key=value` pairs, decoding the
//! `+` and `%XY` escapes of the form-urlencoded syntax, and looking up the
//! `url` parameter. Everything works on raw query bytes; when the same key
//! occurs more than once, the last occurrence wins.

use vstd::prelude::*;

verus! {

/// The bytes of the parameter name `url`.
pub open spec fn url_key() -> Seq<u8> {
    seq![117u8, 114u8, 108u8]
}

/// Whether `b` is an ASCII hexadecimal digit, either case.
pub open spec fn is_hex_digit(b: u8) -> bool {
    (48 <= b && b <= 57) || (97 <= b && b <= 102) || (65 <= b && b <= 70)
}

/// The numeric value of an ASCII hexadecimal digit.
pub open spec fn hex_value(b: u8) -> nat
    recommends
        is_hex_digit(b),
{
    if 48 <= b && b <= 57 {
        (b - 48) as nat
    } else if 97 <= b && b <= 102 {
        (b - 87) as nat
    } else {
        (b - 55) as nat
    }
}

/// A decoded escape: the byte written as a percent sign and two hexadecimal
/// digits.
pub open spec fn percent_byte(hi: u8, lo: u8) -> u8
    recommends
        is_hex_digit(hi),
        is_hex_digit(lo),
{
    (hex_value(hi) * 16 + hex_value(lo)) as u8
}

/// One key or value with its escapes decoded: `+` stands for a space, a
/// percent sign followed by two hexadecimal digits stands for that byte, and
/// every other byte (a malformed escape included) stands for itself.
pub open spec fn decoded(s: Seq<u8>) -> Seq<u8>
    decreases s.len(),
{
    if s.len() == 0 {
        Seq::empty()
    } else if s[0] == 43 {
        seq![32u8] + decoded(s.skip(1))
    } else if s[0] == 37 && s.len() >= 3 && is_hex_digit(s[1]) && is_hex_digit(s[2]) {
        seq![percent_byte(s[1], s[2])] + decoded(s.skip(3))
    } else {
        seq![s[0]] + decoded(s.skip(1))
    }
}

/// The index of the first occurrence of `b` in `s`, or `s.len()` when `s`
/// does not hold `b`.
pub open spec fn find_byte(s: Seq<u8>, b: u8) -> nat
    decreases s.len(),
{
    if s.len() == 0 {
        0
    } else if s[0] == b {
        0
    } else {
        1 + find_byte(s.skip(1), b)
    }
}

/// What `find_byte` promises: an index within bounds that hits `b` first, or
/// the length when `b` does not occur.
pub proof fn lemma_find_byte(s: Seq<u8>, b: u8)
    ensures
        find_byte(s, b) <= s.len(),
        find_byte(s, b) < s.len() ==> s[find_byte(s, b) as int] == b,
        forall|j: int| 0 <= j < find_byte(s, b) ==> s[j] != b,
    decreases s.len(),
{
    if s.len() == 0 {
    } else if s[0] == b {
    } else {
        lemma_find_byte(s.skip(1), b);
        let f = find_byte(s, b) as int;
        assert forall|j: int| 0 <= j < f implies s[j] != b by {
            if j > 0 {
                assert(s.skip(1)[j - 1] == s[j]);
            }
        }
        if f < s.len() {
            assert(s.skip(1)[f - 1] == s[f]);
        }
    }
}

/// An index with the first-occurrence property is the one `find_byte` gives.
pub proof fn lemma_find_byte_unique(s: Seq<u8>, b: u8, i: nat)
    requires
        i <= s.len(),
        i < s.len() ==> s[i as int] == b,
        forall|j: int| 0 <= j < i ==> s[j] != b,
        i == s.len() ==> forall|j: int| 0 <= j < s.len() ==> s[j] != b,
    ensures
        find_byte(s, b) == i,
{
    lemma_find_byte(s, b);
    let f = find_byte(s, b);
    if f < i {
        assert(s[f as int] == b);
    } else if i < f {
        assert(s[i as int] == b);
    }
}

/// The key and value of one `key=value` piece, both decoded; a piece without
/// an equals sign is a key with an empty value.
pub open spec fn parsed_pair(piece: Seq<u8>) -> (Seq<u8>, Seq<u8>) {
    let i = find_byte(piece, 61);
    if i >= piece.len() {
        (decoded(piece), Seq::empty())
    } else {
        (decoded(piece.take(i as int)), decoded(piece.skip(i as int + 1)))
    }
}

/// All the `key=value` pairs of a query string, split on ampersands, with
/// empty pieces skipped.
pub open spec fn parsed_pairs(q: Seq<u8>) -> Seq<(Seq<u8>, Seq<u8>)>
    decreases q.len(),
{
    if q.len() == 0 {
        Seq::empty()
    } else {
        let i = find_byte(q, 38);
        if i >= q.len() {
            seq![parsed_pair(q)]
        } else {
            let rest = parsed_pairs(q.skip(i as int + 1));
            if i == 0 {
                rest
            } else {
                seq![parsed_pair(q.take(i as int))] + rest
            }
        }
    }
}

/// The value of the last pair whose key is `key`, if any.
pub open spec fn lookup_param(pairs: Seq<(Seq<u8>, Seq<u8>)>, key: Seq<u8>) -> Option<Seq<u8>>
    decreases pairs.len(),
{
    if pairs.len() == 0 {
        None
    } else {
        let rest = lookup_param(pairs.drop_first(), key);
        if rest is Some {
            rest
        } else if pairs[0].0 == key {
            Some(pairs[0].1)
        } else {
            None
        }
    }
}

/// The decoded value of the parameter named `key` in the query string `q`.
pub open spec fn query_param(q: Seq<u8>, key: Seq<u8>) -> Option<Seq<u8>> {
    lookup_param(parsed_pairs(q), key)
}

/// The extracted image URL: the `url` parameter's decoded value, with an
/// empty value treated exactly like an absent one.
pub open spec fn extract_url_spec(q: Seq<u8>) -> Option<Seq<u8>> {
    match query_param(q, url_key()) {
        Some(v) => if v.len() == 0 {
            None
        } else {
            Some(v)
        },
        None => None,
    }
}

/// Whether two byte slices hold the same bytes.
fn bytes_eq(a: &[u8], b: &[u8]) -> (r: bool)
    ensures
        r == (a@ == b@),
{
    if a.len() != b.len() {
        return false;
    }
    let n = a.len();
    let mut i: usize = 0;
    while i < n
        invariant
            i <= n,
            n == a@.len(),
            a@.len() == b@.len(),
            forall|j: int| 0 <= j < i ==> a@[j] == b@[j],
        decreases n - i,
    {
        if a[i] != b[i] {
            return false;
        }
        i += 1;
    }
    assert(a@ =~= b@);
    true
}

/// The numeric value of an ASCII hexadecimal digit, or `None` for any other
/// byte.
fn hex_digit_value(b: u8) -> (r: Option<u8>)
    ensures
        r is Some <==> is_hex_digit(b),
        r matches Some(v) ==> v as nat == hex_value(b) && v < 16,
{
    if 48 <= b && b <= 57 {
        Some(b - 48)
    } else if 97 <= b && b <= 102 {
        Some(b - 87)
    } else if 65 <= b && b <= 70 {
        Some(b - 55)
    } else {
        None
    }
}

/// The index of the first occurrence of `b` in `s`, or `s.len()` when `s`
/// does not hold `b`.
fn find_byte_in(s: &[u8], b: u8) -> (r: usize)
    ensures
        r as nat == find_byte(s@, b),
{
    let n = s.len();
    let mut i: usize = 0;
    while i < n
        invariant
            i <= n,
            n == s@.len(),
            forall|j: int| 0 <= j < i ==> s@[j] != b,
        decreases n - i,
    {
        if s[i] == b {
            proof {
                lemma_find_byte_unique(s@, b, i as nat);
            }
            return i;
        }
        i += 1;
    }
    proof {
        lemma_find_byte_unique(s@, b, n as nat);
    }
    n
}

/// Decodes the escapes of one key or value.
pub fn decode_component(s: &[u8]) -> (r: Vec<u8>)
    ensures
        r@ == decoded(s@),
{
    let n = s.len();
    let mut out: Vec<u8> = Vec::new();
    let mut i: usize = 0;
    proof {
        assert(s@.skip(0) =~= s@);
        assert(out@ + decoded(s@) =~= decoded(s@));
    }
    while i < n
        invariant
            i <= n,
            n == s@.len(),
            decoded(s@) == out@ + decoded(s@.skip(i as int)),
        decreases n - i,
    {
        let ghost tail = s@.skip(i as int);
        proof {
            assert(tail[0] == s@[i as int]);
        }
        let c = s[i];
        if c == 43 {
            out.push(32);
            i += 1;
            proof {
                assert(tail.skip(1) =~= s@.skip(i as int));
                assert(out@ + decoded(s@.skip(i as int)) =~= decoded(s@));
            }
        } else if c == 37 && n - i >= 3 {
            proof {
                assert(tail[1] == s@[i + 1]);
                assert(tail[2] == s@[i + 2]);
            }
            let hi = hex_digit_value(s[i + 1]);
            let lo = hex_digit_value(s[i + 2]);
            match (hi, lo) {
                (Some(vh), Some(vl)) => {
                    out.push(vh * 16 + vl);
                    i += 3;
                    proof {
                        assert(tail.skip(3) =~= s@.skip(i as int));
                        assert(out@ + decoded(s@.skip(i as int)) =~= decoded(s@));
                    }
                },
                _ => {
                    out.push(c);
                    i += 1;
                    proof {
                        assert(tail.skip(1) =~= s@.skip(i as int));
                        assert(out@ + decoded(s@.skip(i as int)) =~= decoded(s@));
                    }
                },
            }
        } else {
            out.push(c);
            i += 1;
            proof {
                assert(tail.skip(1) =~= s@.skip(i as int));
                assert(out@ + decoded(s@.skip(i as int)) =~= decoded(s@));
            }
        }
    }
    proof {
        assert(decoded(s@.skip(n as int)) =~= Seq::<u8>::empty());
        assert(out@ =~= decoded(s@));
    }
    out
}

/// Splits one `key=value` piece at its first equals sign and decodes both
/// sides.
fn split_pair(piece: &[u8]) -> (r: (Vec<u8>, Vec<u8>))
    ensures
        r.0@ == parsed_pair(piece@).0,
        r.1@ == parsed_pair(piece@).1,
{
    let eq = find_byte_in(piece, 61);
    if eq >= piece.len() {
        let k = decode_component(piece);
        let v: Vec<u8> = Vec::new();
        (k, v)
    } else {
        let k = decode_component(&piece[0..eq]);
        let v = decode_component(&piece[eq + 1..piece.len()]);
        proof {
            assert(piece@.subrange(0, eq as int) =~= piece@.take(eq as int));
            assert(piece@.subrange(eq as int + 1, piece@.len() as int) =~= piece@.skip(
                eq as int + 1,
            ));
        }
        (k, v)
    }
}

/// Looks the parameter named `key` up in the raw query bytes: the decoded
/// value of its last occurrence, if any.
pub fn lookup_query(q: &[u8], key: &[u8]) -> (r: Option<Vec<u8>>)
    ensures
        r is Some <==> query_param(q@, key@) is Some,
        r matches Some(v) ==> query_param(q@, key@) == Some(v@),
    decreases q@.len(),
{
    if q.len() == 0 {
        return None;
    }
    proof {
        lemma_find_byte(q@, 38);
    }
    let amp = find_byte_in(q, 38);
    if amp >= q.len() {
        let ghost pairs = parsed_pairs(q@);
        proof {
            assert(pairs =~= seq![parsed_pair(q@)]);
            assert(pairs.drop_first() =~= Seq::<(Seq<u8>, Seq<u8>)>::empty());
            assert(lookup_param(pairs.drop_first(), key@) is None);
            assert(pairs[0] == parsed_pair(q@));
            assert(query_param(q@, key@) == (if parsed_pair(q@).0 == key@ {
                Some(parsed_pair(q@).1)
            } else {
                None::<Seq<u8>>
            }));
        }
        let (k, v) = split_pair(q);
        if bytes_eq(k.as_slice(), key) {
            Some(v)
        } else {
            None
        }
    } else {
        let ghost pairs = parsed_pairs(q@);
        let ghost rest_pairs = parsed_pairs(q@.skip(amp as int + 1));
        let rest = lookup_query(&q[amp + 1..q.len()], key);
        proof {
            assert(q@.subrange(amp as int + 1, q@.len() as int) =~= q@.skip(amp as int + 1));
        }
        if amp == 0 {
            proof {
                assert(pairs =~= rest_pairs);
                assert(query_param(q@, key@) == lookup_param(rest_pairs, key@));
            }
            rest
        } else {
            let ghost head = parsed_pair(q@.take(amp as int));
            proof {
                assert(pairs =~= seq![head] + rest_pairs);
                assert(pairs.drop_first() =~= rest_pairs);
                assert(pairs[0] == head);
                assert(pairs.len() > 0);
                assert(query_param(q@, key@) == (if lookup_param(rest_pairs, key@) is Some {
                    lookup_param(rest_pairs, key@)
                } else if head.0 == key@ {
                    Some(head.1)
                } else {
                    None::<Seq<u8>>
                }));
            }
            match rest {
                Some(v) => Some(v),
                None => {
                    let (k, v) = split_pair(&q[0..amp]);
                    proof {
                        assert(q@.subrange(0, amp as int) =~= q@.take(amp as int));
                    }
                    if bytes_eq(k.as_slice(), key) {
                        Some(v)
                    } else {
                        None
                    }
                },
            }
        }
    }
}

/// Extracts the image URL from the raw bytes of a request's query string.
///
/// The result is the decoded value of the last `url` parameter, and `None`
/// when the parameter is absent or its value decodes to the empty string:
/// a request with `url=` set to nothing is indistinguishable from one
/// without the parameter. An absent query string is passed as an empty
/// slice.
pub fn extract_url(query: &[u8]) -> (r: Option<Vec<u8>>)
    ensures
        r is Some <==> extract_url_spec(query@) is Some,
        r matches Some(v) ==> extract_url_spec(query@) == Some(v@),
{
    let mut key: Vec<u8> = Vec::new();
    key.push(117);
    key.push(114);
    key.push(108);
    proof {
        assert(key@ =~= url_key());
    }
    match lookup_query(query, key.as_slice()) {
        None => None,
        Some(v) => {
            if v.len() == 0 {
                None
            } else {
                Some(v)
            }
        },
    }
}

/// Law: extraction is a pure function of the query bytes — equal query
/// strings always yield equal results.
pub proof fn lemma_extract_url_deterministic(q1: Seq<u8>, q2: Seq<u8>)
    requires
        q1 == q2,
    ensures
        extract_url_spec(q1) == extract_url_spec(q2),
{
}

/// Law: a query without a `url` parameter and a query whose `url` parameter
/// decodes to the empty string yield the same missing result.
pub proof fn lemma_empty_url_equals_missing(q1: Seq<u8>, q2: Seq<u8>)
    requires
        query_param(q1, url_key()) is None,
        query_param(q2, url_key()) == Some(Seq::<u8>::empty()),
    ensures
        extract_url_spec(q1) is None,
        extract_url_spec(q2) is None,
        extract_url_spec(q1) == extract_url_spec(q2),
{
}

} // verus!
