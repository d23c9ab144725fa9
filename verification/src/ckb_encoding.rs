//! Byte encodings of CKB values: fixed-width integers, the molecule
//! serialization of a script, CKB's BLAKE2b hash, hexadecimal text, and the
//! lexicographic order of byte strings.
use vstd::prelude::*;
use vstd::string::StringSliceAdditionalSpecFns;

use ckb_types::prelude::{Builder, Entity, Pack};

use crate::ckb_script::bytes_eq;
use crate::text::{hex_digit_char, hex_value, is_hex_digit};

verus! {

/// `n` as 4 little-endian bytes.
pub open spec fn le32(n: nat) -> Seq<u8> {
    seq![
        (n % 256) as u8,
        ((n / 0x100) % 256) as u8,
        ((n / 0x1_0000) % 256) as u8,
        ((n / 0x100_0000) % 256) as u8,
    ]
}

/// `n` as 4 big-endian bytes.
pub open spec fn be32(n: nat) -> Seq<u8> {
    seq![
        ((n / 0x100_0000) % 256) as u8,
        ((n / 0x1_0000) % 256) as u8,
        ((n / 0x100) % 256) as u8,
        (n % 256) as u8,
    ]
}

/// `n` as 8 big-endian bytes.
pub open spec fn be64(n: nat) -> Seq<u8> {
    be32(n / 0x1_0000_0000) + be32(n % 0x1_0000_0000)
}

/// Appends `n` as 4 big-endian bytes.
pub fn push_be32(v: &mut Vec<u8>, n: u32)
    ensures
        final(v)@ == old(v)@ + be32(n as nat),
{
    v.push(((n / 0x100_0000) % 256) as u8);
    v.push(((n / 0x1_0000) % 256) as u8);
    v.push(((n / 0x100) % 256) as u8);
    v.push((n % 256) as u8);
    proof {
        assert(final(v)@ =~= old(v)@ + be32(n as nat));
    }
}

/// Appends `n` as 8 big-endian bytes.
pub fn push_be64(v: &mut Vec<u8>, n: u64)
    ensures
        final(v)@ == old(v)@ + be64(n as nat),
{
    let high = (n / 0x1_0000_0000) as u32;
    let low = (n % 0x1_0000_0000) as u32;
    let ghost start = v@;
    push_be32(v, high);
    push_be32(v, low);
    proof {
        assert(v@ =~= start + be64(n as nat));
    }
}

/// The molecule serialization of a CKB script: a table header (total size
/// and the offsets of its three fields, as little-endian `u32`), the 32-byte
/// code hash, the hash type byte, and the args as a length-prefixed byte
/// vector.
pub open spec fn molecule_script(code_hash: Seq<u8>, hash_type: u8, args: Seq<u8>) -> Seq<u8> {
    le32(53 + args.len()) + le32(16) + le32(48) + le32(49) + code_hash + seq![hash_type] + le32(
        args.len(),
    ) + args
}

/// Serializes a script with ckb-types' `ScriptBuilder` and returns the
/// entity's bytes; the builder writes the molecule table layout.
#[verifier::external_body]
pub(crate) fn pack_script(code_hash: &Vec<u8>, hash_type: u8, args: &Vec<u8>) -> (r: Vec<u8>)
    requires
        code_hash@.len() == 32,
        args@.len() + 53 <= u32::MAX,
    ensures
        r@ == molecule_script(code_hash@, hash_type, args@),
{
    let mut hash = [0u8; 32];
    hash.copy_from_slice(code_hash);
    let script = ckb_types::packed::Script::new_builder()
        .code_hash(hash.pack())
        .hash_type(ckb_types::packed::Byte::new(hash_type))
        .args(args.as_slice().pack())
        .build();
    script.as_slice().to_vec()
}

/// What `ckb_hash::blake2b_256` returns for `data`: BLAKE2b-256 with CKB's
/// personalization.
pub uninterp spec fn ckb_blake2b_256(data: Seq<u8>) -> Seq<u8>;

/// CKB's 32-byte BLAKE2b hash of `data` (`ckb_hash::blake2b_256`).
#[verifier::external_body]
pub(crate) fn blake2b_256(data: &Vec<u8>) -> (r: Vec<u8>)
    ensures
        r@ == ckb_blake2b_256(data@),
        r@.len() == 32,
{
    ckb_hash::blake2b_256(data.as_slice()).to_vec()
}

/// The bytes of `s`.
pub fn bytes_of(s: &str) -> (r: Vec<u8>)
    ensures
        r@ == s.spec_bytes(),
{
    let b = s.as_bytes();
    let mut r: Vec<u8> = Vec::new();
    let mut i: usize = 0;
    while i < b.len()
        invariant
            i <= b@.len(),
            b@ == s.spec_bytes(),
            r@ == b@.take(i as int),
        decreases b@.len() - i,
    {
        r.push(b[i]);
        proof {
            assert(b@.take(i + 1) =~= b@.take(i as int).push(b@[i as int]));
        }
        i = i + 1;
    }
    proof {
        assert(b@.take(b@.len() as int) =~= b@);
    }
    r
}

/// Appends the bytes of `w` to `v`.
pub fn append_bytes(v: &mut Vec<u8>, w: &Vec<u8>)
    ensures
        final(v)@ == old(v)@ + w@,
{
    let ghost start = v@;
    let mut i: usize = 0;
    while i < w.len()
        invariant
            i <= w.len(),
            v@ == start + w@.take(i as int),
        decreases w.len() - i,
    {
        v.push(w[i]);
        proof {
            assert(w@.take(i + 1) =~= w@.take(i as int).push(w@[i as int]));
        }
        i = i + 1;
    }
    proof {
        assert(w@.take(w.len() as int) =~= w@);
    }
}

/// The byte order of `Vec<u8>`: the first differing byte decides, and a
/// proper prefix comes first.
pub open spec fn lex_lt(a: Seq<u8>, b: Seq<u8>) -> bool
    decreases a.len(),
{
    if a.len() == 0 {
        b.len() > 0
    } else if b.len() == 0 {
        false
    } else if a[0] != b[0] {
        a[0] < b[0]
    } else {
        lex_lt(a.drop_first(), b.drop_first())
    }
}

/// Nothing precedes itself.
pub proof fn lemma_lex_irreflexive(a: Seq<u8>)
    ensures
        !lex_lt(a, a),
    decreases a.len(),
{
    if a.len() > 0 {
        lemma_lex_irreflexive(a.drop_first());
    }
}

/// The byte order is transitive.
pub proof fn lemma_lex_transitive(a: Seq<u8>, b: Seq<u8>, c: Seq<u8>)
    requires
        lex_lt(a, b),
        lex_lt(b, c),
    ensures
        lex_lt(a, c),
    decreases a.len(),
{
    if a.len() > 0 && b.len() > 0 && c.len() > 0 {
        if a[0] == b[0] && b[0] == c[0] {
            lemma_lex_transitive(a.drop_first(), b.drop_first(), c.drop_first());
        }
    }
}

/// Of two different byte strings, one precedes the other.
pub proof fn lemma_lex_total(a: Seq<u8>, b: Seq<u8>)
    requires
        a != b,
    ensures
        lex_lt(a, b) || lex_lt(b, a),
    decreases a.len(),
{
    if a.len() > 0 && b.len() > 0 && a[0] == b[0] {
        if a.drop_first() == b.drop_first() {
            assert(a =~= seq![a[0]] + a.drop_first());
            assert(b =~= seq![b[0]] + b.drop_first());
        }
        lemma_lex_total(a.drop_first(), b.drop_first());
    } else if a.len() == 0 && b.len() == 0 {
        assert(a =~= b);
    }
}

/// Whether `a` precedes `b` in byte order.
pub fn bytes_lt(a: &Vec<u8>, b: &Vec<u8>) -> (r: bool)
    ensures
        r == lex_lt(a@, b@),
{
    let mut i: usize = 0;
    proof {
        assert(a@.skip(0) =~= a@);
        assert(b@.skip(0) =~= b@);
    }
    while i < a.len() && i < b.len()
        invariant
            i <= a.len(),
            i <= b.len(),
            lex_lt(a@, b@) == lex_lt(a@.skip(i as int), b@.skip(i as int)),
        decreases a.len() - i,
    {
        proof {
            assert(a@.skip(i as int).drop_first() =~= a@.skip(i + 1));
            assert(b@.skip(i as int).drop_first() =~= b@.skip(i + 1));
        }
        if a[i] != b[i] {
            return a[i] < b[i];
        }
        i = i + 1;
    }
    i < b.len()
}

/// The views of a list of byte strings.
pub open spec fn byte_strings(v: Seq<Vec<u8>>) -> Seq<Seq<u8>> {
    v.map_values(|e: Vec<u8>| e@)
}

/// Strictly increasing in byte order (so without repeats).
pub open spec fn strictly_sorted(s: Seq<Seq<u8>>) -> bool {
    forall|i: int, j: int| 0 <= i < j < s.len() ==> lex_lt(#[trigger] s[i], #[trigger] s[j])
}

/// Adds `x` to a strictly sorted list of byte strings, keeping it strictly
/// sorted; a string already present is not added again.
pub fn insert_sorted(v: &mut Vec<Vec<u8>>, x: Vec<u8>)
    requires
        strictly_sorted(byte_strings(old(v)@)),
    ensures
        strictly_sorted(byte_strings(final(v)@)),
        forall|e: Seq<u8>|
            #[trigger] byte_strings(final(v)@).contains(e) <==> (byte_strings(old(v)@).contains(e)
                || e == x@),
{
    let ghost s = byte_strings(v@);
    let mut k: usize = 0;
    while k < v.len() && bytes_lt(&v[k], &x)
        invariant
            k <= v.len(),
            s == byte_strings(v@),
            forall|i: int| 0 <= i < k ==> lex_lt(#[trigger] s[i], x@),
        decreases v.len() - k,
    {
        k = k + 1;
    }
    if k < v.len() {
        proof {
            assert(s[k as int] == v@[k as int]@);
        }
        if bytes_eq(&v[k], &x) {
            proof {
                assert(s[k as int] == x@);
                assert forall|e: Seq<u8>| #[trigger] s.contains(e) <==> (s.contains(e) || e == x@) by {
                    if e == x@ {
                        assert(s[k as int] == e);
                    }
                }
            }
            return;
        }
    }
    proof {
        if k < v.len() {
            assert(s[k as int] != x@);
            lemma_lex_total(s[k as int], x@);
        }
    }
    v.insert(k, x);
    proof {
        let t = byte_strings(v@);
        assert(t =~= s.insert(k as int, x@));
        assert forall|i: int, j: int| 0 <= i < j < t.len() implies lex_lt(
            #[trigger] t[i],
            #[trigger] t[j],
        ) by {
            if j == k {
                assert(t[i] == s[i]);
            } else if i == k {
                assert(t[j] == s[j - 1]);
                if j - 1 > k {
                    lemma_lex_transitive(x@, s[k as int], s[j - 1]);
                }
            } else if i < k && j > k {
                assert(t[j] == s[j - 1]);
                if j - 1 > k {
                    lemma_lex_transitive(x@, s[k as int], s[j - 1]);
                }
                lemma_lex_transitive(s[i], x@, s[j - 1]);
            } else if j < k {
                assert(t[i] == s[i] && t[j] == s[j]);
            } else {
                assert(t[i] == s[i - 1] && t[j] == s[j - 1]);
            }
        }
        assert forall|e: Seq<u8>| #[trigger] t.contains(e) <==> (s.contains(e) || e == x@) by {
            if t.contains(e) {
                let i = choose|i: int| 0 <= i < t.len() && t[i] == e;
                if i < k {
                    assert(s[i] == e);
                } else if i > k {
                    assert(s[i - 1] == e);
                }
            }
            if s.contains(e) {
                let i = choose|i: int| 0 <= i < s.len() && s[i] == e;
                if i < k {
                    assert(t[i] == e);
                } else {
                    assert(t[i + 1] == e);
                }
            }
            if e == x@ {
                assert(t[k as int] == e);
            }
        }
    }
}

/// Whether `hex::decode` accepts `t`: an even number of hexadecimal digits
/// of either case.
pub open spec fn hex_decodable(t: Seq<char>) -> bool {
    t.len() % 2 == 0 && forall|i: int| 0 <= i < t.len() ==> is_hex_digit(#[trigger] t[i])
}

/// The bytes hexadecimal text `t` stands for, two digits per byte.
pub open spec fn hex_decoded(t: Seq<char>) -> Seq<u8> {
    Seq::new(t.len() / 2, |i: int| (hex_value(t[2 * i]) * 16 + hex_value(t[2 * i + 1])) as u8)
}

/// The text of the error `hex::decode` reports for text it refuses.
pub uninterp spec fn hex_decode_error(t: Seq<char>) -> Seq<char>;

/// Decodes hexadecimal text with `hex::decode`: it accepts exactly an even
/// number of hexadecimal digits and yields one byte per pair; otherwise its
/// error's display text is returned.
#[verifier::external_body]
pub(crate) fn hex_decode(text: &str) -> (r: Result<Vec<u8>, String>)
    ensures
        match r {
            Ok(b) => hex_decodable(text@) && b@ == hex_decoded(text@),
            Err(e) => !hex_decodable(text@) && e@ == hex_decode_error(text@),
        },
{
    hex::decode(text).map_err(|err| err.to_string())
}

/// Lower-case hexadecimal text of `b`, two digits per byte.
pub open spec fn hex_text(b: Seq<u8>) -> Seq<char>
    decreases b.len(),
{
    if b.len() == 0 {
        Seq::empty()
    } else {
        hex_text(b.drop_last()) + seq![
            hex_digit_char(b.last() as nat / 16),
            hex_digit_char(b.last() as nat % 16),
        ]
    }
}

/// Encodes bytes as lower-case hexadecimal text with `hex::encode`.
#[verifier::external_body]
pub(crate) fn hex_encode(bytes: &Vec<u8>) -> (r: String)
    ensures
        r@ == hex_text(bytes@),
{
    hex::encode(bytes.as_slice())
}

/// No byte string both precedes and follows another.
pub proof fn lemma_lex_asymmetric(a: Seq<u8>, b: Seq<u8>)
    requires
        lex_lt(a, b),
    ensures
        !lex_lt(b, a),
{
    if lex_lt(b, a) {
        lemma_lex_transitive(a, b, a);
        lemma_lex_irreflexive(a);
    }
}

/// A strictly sorted list is determined by its elements: two strictly
/// sorted lists with the same elements are equal.
pub proof fn lemma_strictly_sorted_unique(s1: Seq<Seq<u8>>, s2: Seq<Seq<u8>>)
    requires
        strictly_sorted(s1),
        strictly_sorted(s2),
        forall|e: Seq<u8>|
            #![trigger s1.contains(e)]
            #![trigger s2.contains(e)]
            s1.contains(e) <==> s2.contains(e),
    ensures
        s1 == s2,
    decreases s1.len(),
{
    if s1.len() == 0 {
        if s2.len() > 0 {
            assert(s2.contains(s2[0]));
            assert(s1.contains(s2[0]));
        }
        assert(s1 =~= s2);
    } else {
        assert(s1.contains(s1[0]));
        assert(s2.len() > 0);
        assert(s2.contains(s2[0]));
        assert(s2.contains(s1[0]));
        assert(s1.contains(s2[0]));
        let j = choose|j: int| 0 <= j < s2.len() && s2[j] == s1[0];
        let i = choose|i: int| 0 <= i < s1.len() && s1[i] == s2[0];
        if j > 0 {
            assert(lex_lt(s2[0], s2[j]));
            if i > 0 {
                assert(lex_lt(s1[0], s1[i]));
                lemma_lex_asymmetric(s1[0], s1[i]);
            } else {
                lemma_lex_irreflexive(s1[0]);
            }
        }
        assert(s1[0] == s2[0]);
        let r1 = s1.drop_first();
        let r2 = s2.drop_first();
        assert forall|e: Seq<u8>|
            #![trigger r1.contains(e)]
            #![trigger r2.contains(e)]
            r1.contains(e) <==> r2.contains(e) by {
            if r1.contains(e) {
                let k = choose|k: int| 0 <= k < r1.len() && r1[k] == e;
                assert(s1[k + 1] == e);
                assert(lex_lt(s1[0], s1[k + 1]));
                lemma_lex_irreflexive(e);
                assert(s1.contains(e));
                let m = choose|m: int| 0 <= m < s2.len() && s2[m] == e;
                assert(m != 0);
                assert(r2[m - 1] == e);
            }
            if r2.contains(e) {
                let k = choose|k: int| 0 <= k < r2.len() && r2[k] == e;
                assert(s2[k + 1] == e);
                assert(lex_lt(s2[0], s2[k + 1]));
                lemma_lex_irreflexive(e);
                assert(s2.contains(e));
                let m = choose|m: int| 0 <= m < s1.len() && s1[m] == e;
                assert(m != 0);
                assert(r1[m - 1] == e);
            }
        }
        assert forall|a: int, b: int| 0 <= a < b < r1.len() implies lex_lt(
            #[trigger] r1[a],
            #[trigger] r1[b],
        ) by {
            assert(r1[a] == s1[a + 1] && r1[b] == s1[b + 1]);
        }
        assert forall|a: int, b: int| 0 <= a < b < r2.len() implies lex_lt(
            #[trigger] r2[a],
            #[trigger] r2[b],
        ) by {
            assert(r2[a] == s2[a + 1] && r2[b] == s2[b + 1]);
        }
        lemma_strictly_sorted_unique(r1, r2);
        assert(s1 =~= seq![s1[0]] + r1);
        assert(s2 =~= seq![s2[0]] + r2);
    }
}

} // verus!
