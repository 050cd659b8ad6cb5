use vstd::prelude::*;

use crate::text::push_char;

verus! {

/// The lowercase hexadecimal digit for a value below sixteen.
pub open spec fn hex_digit(n: int) -> char {
    if n < 10 {
        (48 + n) as char
    } else {
        (87 + n) as char
    }
}

/// Whether `c` is one of `0-9` or `a-f`.
pub open spec fn is_lower_hex_digit(c: char) -> bool {
    ('0' <= c && c <= '9') || ('a' <= c && c <= 'f')
}

/// Lowercase hexadecimal encoding: each byte becomes two digits, the high
/// nibble first.
pub open spec fn hex_lower(data: Seq<u8>) -> Seq<char> {
    Seq::new(
        2 * data.len(),
        |i: int|
            if i % 2 == 0 {
                hex_digit(data[i / 2] as int / 16)
            } else {
                hex_digit(data[i / 2] as int % 16)
            },
    )
}

fn hex_digit_char(n: u8) -> (c: char)
    requires
        n < 16,
    ensures
        c == hex_digit(n as int),
{
    if n < 10 {
        (48u8 + n) as char
    } else {
        (87u8 + n) as char
    }
}

/// Encodes `data` as lowercase hexadecimal text.
pub fn encode_hex_lower(data: &[u8]) -> (res: String)
    ensures
        res@ == hex_lower(data@),
{
    let mut res = String::new();
    let n = data.len();
    let mut i: usize = 0;
    while i < n
        invariant
            n == data@.len(),
            i <= n,
            res@.len() == 2 * i,
            forall|j: int| 0 <= j < 2 * i ==> res@[j] == #[trigger] hex_lower(data@)[j],
        decreases n - i,
    {
        let b = data[i];
        let hi = hex_digit_char(b / 16);
        let lo = hex_digit_char(b % 16);
        push_char(&mut res, hi);
        push_char(&mut res, lo);
        assert(hex_lower(data@)[2 * i as int] == hi);
        assert(hex_lower(data@)[2 * i as int + 1] == lo);
        i = i + 1;
    }
    assert(res@ =~= hex_lower(data@));
    res
}


/// What SHA-256 gives for `data`.
pub uninterp spec fn sha256_digest(data: Seq<u8>) -> Seq<u8>;

/// SHA-256 of `data`.
///
/// Trusted: calls `ring::digest::digest` with `ring::digest::SHA256`. The
/// contract claims that the result is the digest named `sha256_digest` of
/// the input and that it is 32 bytes long (`SHA256` has an output length of
/// 256 bits). `ring` panics when the input's length in bits does not fit in
/// a `u64`, so such inputs are excluded.
#[verifier::external_body]
fn sha256(data: &[u8]) -> (digest: Vec<u8>)
    requires
        data@.len() * 8 <= u64::MAX,
    ensures
        digest@ == sha256_digest(data@),
        digest@.len() == 32,
{
    ring::digest::digest(&ring::digest::SHA256, data).as_ref().to_vec()
}

/// The checksum of `bytes`: its SHA-256 digest in lowercase hexadecimal.
pub open spec fn spec_checksum(bytes: Seq<u8>) -> Seq<char> {
    hex_lower(sha256_digest(bytes))
}

/// Computes the checksum of `bytes`: the SHA-256 digest, in lowercase
/// hexadecimal, always 64 characters long.
pub fn checksum(bytes: &Vec<u8>) -> (res: String)
    requires
        bytes@.len() * 8 <= u64::MAX,
    ensures
        res@ == spec_checksum(bytes@),
        res@.len() == 64,
        forall|j: int| 0 <= j < res@.len() ==> is_lower_hex_digit(#[trigger] res@[j]),
{
    let digest = sha256(bytes.as_slice());
    let res = encode_hex_lower(digest.as_slice());
    proof {
        lemma_hex_lower_shape(digest@);
    }
    res
}

/// Hexadecimal text is twice as long as the data it encodes, and holds
/// only the digits `0-9` and `a-f`.
pub proof fn lemma_hex_lower_shape(data: Seq<u8>)
    ensures
        hex_lower(data).len() == 2 * data.len(),
        forall|j: int|
            0 <= j < hex_lower(data).len() ==> is_lower_hex_digit(#[trigger] hex_lower(data)[j]),
{
    assert forall|j: int| 0 <= j < hex_lower(data).len() implies is_lower_hex_digit(
        #[trigger] hex_lower(data)[j],
    ) by {
        let b = data[j / 2] as int;
        assert(0 <= b / 16 < 16);
        assert(0 <= b % 16 < 16);
    }
}

proof fn lemma_hex_digit_injective(n: int, m: int)
    requires
        0 <= n < 16,
        0 <= m < 16,
        hex_digit(n) == hex_digit(m),
    ensures
        n == m,
{
    assert((hex_digit(n) as int) == if n < 10 { 48 + n } else { 87 + n });
    assert((hex_digit(m) as int) == if m < 10 { 48 + m } else { 87 + m });
}

/// The value of a hexadecimal digit: `0-9` count from zero, `a-f` from ten.
pub open spec fn hex_value(c: char) -> int {
    if '0' <= c && c <= '9' {
        c as int - '0' as int
    } else {
        c as int - 'a' as int + 10
    }
}

/// Reading the encoding back gives the data: each byte is sixteen times the
/// value of its first digit plus the value of its second.
pub proof fn lemma_hex_lower_decodes(data: Seq<u8>)
    ensures
        forall|i: int|
            0 <= i < data.len() ==> 16 * hex_value(hex_lower(data)[2 * i]) + hex_value(
                hex_lower(data)[2 * i + 1],
            ) == (#[trigger] data[i]) as int,
{
    assert forall|i: int| 0 <= i < data.len() implies 16 * hex_value(hex_lower(data)[2 * i])
        + hex_value(hex_lower(data)[2 * i + 1]) == (#[trigger] data[i]) as int by {
        let x = data[i] as int;
        assert((2 * i) / 2 == i && (2 * i) % 2 == 0);
        assert((2 * i + 1) / 2 == i && (2 * i + 1) % 2 == 1);
        assert(hex_lower(data)[2 * i] == hex_digit(x / 16));
        assert(hex_lower(data)[2 * i + 1] == hex_digit(x % 16));
        lemma_hex_digit_value(x / 16);
        lemma_hex_digit_value(x % 16);
    }
}

proof fn lemma_hex_digit_value(n: int)
    requires
        0 <= n < 16,
    ensures
        hex_value(hex_digit(n)) == n,
{
    assert((hex_digit(n) as int) == if n < 10 { 48 + n } else { 87 + n });
}

/// Two byte strings with the same hexadecimal encoding are equal: the
/// encoding loses nothing.
pub proof fn lemma_hex_lower_injective(a: Seq<u8>, b: Seq<u8>)
    requires
        hex_lower(a) == hex_lower(b),
    ensures
        a == b,
{
    assert(hex_lower(a).len() == 2 * a.len());
    assert(hex_lower(b).len() == 2 * b.len());
    assert forall|i: int| 0 <= i < a.len() implies a[i] == b[i] by {
        let x = a[i] as int;
        let y = b[i] as int;
        assert(hex_lower(a)[2 * i] == hex_lower(b)[2 * i]);
        assert(hex_lower(a)[2 * i + 1] == hex_lower(b)[2 * i + 1]);
        assert((2 * i) / 2 == i && (2 * i) % 2 == 0);
        assert((2 * i + 1) / 2 == i && (2 * i + 1) % 2 == 1);
        assert(hex_lower(a)[2 * i] == hex_digit(x / 16));
        assert(hex_lower(b)[2 * i] == hex_digit(y / 16));
        assert(hex_lower(a)[2 * i + 1] == hex_digit(x % 16));
        assert(hex_lower(b)[2 * i + 1] == hex_digit(y % 16));
        lemma_hex_digit_injective(x / 16, y / 16);
        lemma_hex_digit_injective(x % 16, y % 16);
    }
    assert(a =~= b);
}

/// Two inputs have the same checksum exactly when they have the same
/// SHA-256 digest.
pub proof fn lemma_checksum_matches_digest(a: Seq<u8>, b: Seq<u8>)
    ensures
        spec_checksum(a) == spec_checksum(b) <==> sha256_digest(a) == sha256_digest(b),
{
    if spec_checksum(a) == spec_checksum(b) {
        lemma_hex_lower_injective(sha256_digest(a), sha256_digest(b));
    }
}

} // verus!
