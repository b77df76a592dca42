//! Signed variable-length integers: the zigzag mapping onto naturals, written in base-128
//! groups, least significant first, with the high bit set on every byte but the last.
use integer_encoding::VarInt;
use vstd::arithmetic::div_mod::lemma_fundamental_div_mod_converse;
use vstd::prelude::*;

verus! {

/// The zigzag image of a signed integer: `0, -1, 1, -2, 2, ...` onto `0, 1, 2, 3, 4, ...`.
pub open spec fn zigzag(v: int) -> nat {
    if v >= 0 {
        (2 * v) as nat
    } else {
        (-2 * v - 1) as nat
    }
}

/// The signed integer whose zigzag image is `n`.
pub open spec fn unzigzag(n: nat) -> int {
    if n % 2 == 0 {
        (n / 2) as int
    } else {
        -(((n + 1) / 2) as int)
    }
}

/// The base-128 bytes of `n`, least significant group first, the high bit set on all but
/// the last byte.
pub open spec fn leb128(n: nat) -> Seq<u8>
    decreases n,
{
    if n < 128 {
        seq![n as u8]
    } else {
        seq![(n % 128 + 128) as u8] + leb128(n / 128)
    }
}

/// The number that base-128 groups hold, the first byte least significant; high bits ignored.
pub open spec fn leb_value(s: Seq<u8>) -> nat
    decreases s.len(),
{
    if s.len() == 0 {
        0
    } else {
        (s[0] % 128) as nat + 128 * leb_value(s.drop_first())
    }
}

/// Whether the varint at the start of `s` ends at index `k`: the first byte below 128,
/// within the first ten.
pub open spec fn varint_ends_at(s: Seq<u8>, k: int) -> bool {
    &&& 0 <= k < s.len()
    &&& k < 10
    &&& s[k] < 128
    &&& forall|j: int| 0 <= j < k ==> s[j] >= 128
}

/// `2^64`: the values of a decoded varint are taken modulo this.
pub open spec fn u64_modulus() -> nat {
    0x1_0000_0000_0000_0000
}

/// Relies on integer_encoding's `VarInt::encode_var_vec` for `i64`: the zigzag image of the
/// value in base-128 groups (its `encode_var` for `i64`).
#[verifier::external_body]
pub(crate) fn encode_varint(v: i64) -> (r: Vec<u8>)
    ensures
        r@ == leb128(zigzag(v as int)),
{
    v.encode_var_vec()
}

/// Relies on integer_encoding's `VarInt::decode_var` for `i64`: it reads up to the first byte
/// below 128, if one comes within the first ten, and undoes the zigzag mapping of the value
/// those bytes hold modulo `2^64`; otherwise it returns `None`.
#[verifier::external_body]
pub(crate) fn decode_varint(src: &[u8]) -> (r: Option<(i64, usize)>)
    ensures
        match r {
            Some((v, n)) => varint_ends_at(src@, n - 1) && v as int == unzigzag(
                leb_value(src@.take(n as int)) % u64_modulus(),
            ),
            None => forall|k: int| !varint_ends_at(src@, k),
        },
{
    i64::decode_var(src)
}

/// A varint ends at one place at most.
pub proof fn lemma_varint_end_unique(s: Seq<u8>, k1: int, k2: int)
    requires
        varint_ends_at(s, k1),
        varint_ends_at(s, k2),
    ensures
        k1 == k2,
{
    if k1 < k2 {
        assert(s[k1] >= 128);
    } else if k2 < k1 {
        assert(s[k2] >= 128);
    }
}

/// Zigzag decoding undoes zigzag encoding.
pub proof fn lemma_unzigzag_zigzag(v: int)
    ensures
        unzigzag(zigzag(v)) == v,
{
}

/// Zigzag encoding undoes zigzag decoding.
pub proof fn lemma_zigzag_unzigzag(n: nat)
    ensures
        zigzag(unzigzag(n)) == n,
{
}

proof fn lemma_split_base128(v: nat)
    ensures
        v == (v % 128) + 128 * (v / 128),
        v % 128 < 128,
{
    assert(v == 128 * (v / 128) + v % 128) by (nonlinear_arith);
}

proof fn lemma_join_base128(low: nat, high: nat)
    requires
        low < 128,
    ensures
        (low + 128 * high) % 128 == low,
        (low + 128 * high) / 128 == high,
{
    lemma_fundamental_div_mod_converse((low + 128 * high) as int, 128, high as int, low as int);
}

/// The base-128 bytes of `n` are a varint: nonempty, the high bit set on all bytes but the
/// last, and they hold `n`.
pub proof fn lemma_leb128_shape(n: nat)
    ensures
        leb128(n).len() >= 1,
        leb128(n).last() < 128,
        forall|j: int| 0 <= j < leb128(n).len() - 1 ==> leb128(n)[j] >= 128,
        leb_value(leb128(n)) == n,
    decreases n,
{
    let s = leb128(n);
    if n < 128 {
        assert(s.drop_first() =~= Seq::<u8>::empty());
        assert(leb_value(s.drop_first()) == 0);
    } else {
        lemma_leb128_shape(n / 128);
        lemma_split_base128(n);
        let rest = leb128(n / 128);
        assert(s == seq![(n % 128 + 128) as u8] + rest);
        assert(s.drop_first() =~= rest);
        lemma_join_base128((n % 128) as nat, 1);
        assert(s[0] % 128 == n % 128);
        assert(leb_value(s) == (s[0] % 128) as nat + 128 * leb_value(rest));
        assert forall|j: int| 0 <= j < s.len() - 1 implies s[j] >= 128 by {
            if j > 0 {
                assert(s[j] == rest[j - 1]);
            }
        }
    }
}

/// Values below `128` to the power of `m` take at most `m` bytes.
pub proof fn lemma_leb128_len(n: nat, m: nat)
    requires
        m >= 1,
        n < pow128(m),
    ensures
        leb128(n).len() <= m,
    decreases m,
{
    if n >= 128 {
        if m == 1 {
            assert(pow128(1) == 128) by {
                reveal_with_fuel(pow128, 2);
            }
        }
        let p = pow128((m - 1) as nat);
        lemma_split_base128(n);
        assert(n / 128 < p) by (nonlinear_arith)
            requires
                n < 128 * p,
        ;
        lemma_leb128_len(n / 128, (m - 1) as nat);
    }
}

/// Values below `2^28` take at most four bytes.
pub proof fn lemma_leb128_short(n: nat)
    requires
        n < 0x1000_0000,
    ensures
        leb128(n).len() <= 4,
{
    reveal_with_fuel(pow128, 5);
    assert(pow128(4) == 0x1000_0000);
    lemma_leb128_len(n, 4);
}

/// Bytes that hold no value have no nonzero group.
proof fn lemma_leb_value_zero(s: Seq<u8>)
    requires
        leb_value(s) == 0,
    ensures
        forall|i: int| 0 <= i < s.len() ==> s[i] % 128 == 0,
    decreases s.len(),
{
    if s.len() > 0 {
        lemma_leb_value_zero(s.drop_first());
        assert forall|i: int| 0 <= i < s.len() implies s[i] % 128 == 0 by {
            if i > 0 {
                assert(s[i] == s.drop_first()[i - 1]);
            }
        }
    }
}

/// Bytes of a varint hold less than `128` to the power of their number.
proof fn lemma_leb_value_bound(s: Seq<u8>, bound: nat)
    requires
        bound == pow128(s.len()),
    ensures
        leb_value(s) < bound,
    decreases s.len(),
{
    if s.len() > 0 {
        let rest = s.drop_first();
        lemma_leb_value_bound(rest, pow128(rest.len()));
        let r = leb_value(rest);
        let p = pow128(rest.len());
        assert(128 * r + 127 < 128 * p) by (nonlinear_arith)
            requires
                r < p,
        ;
    }
}

/// `128` to the power of `m`.
pub open spec fn pow128(m: nat) -> nat
    decreases m,
{
    if m == 0 {
        1
    } else {
        128 * pow128((m - 1) as nat)
    }
}

proof fn lemma_pow128_monotone(m: nat, k: nat)
    requires
        m <= k,
    ensures
        pow128(m) <= pow128(k),
    decreases k,
{
    if m < k {
        lemma_pow128_monotone(m, (k - 1) as nat);
    }
}

/// The bytes of a varint whose last group is nonzero, unless it is the only one, are the
/// base-128 bytes of the value they hold.
pub proof fn lemma_minimal_varint(s: Seq<u8>)
    requires
        s.len() >= 1,
        s.last() < 128,
        forall|j: int| 0 <= j < s.len() - 1 ==> s[j] >= 128,
        s.len() == 1 || s.last() != 0,
    ensures
        leb128(leb_value(s)) == s,
    decreases s.len(),
{
    if s.len() == 1 {
        assert(s.drop_first() =~= Seq::<u8>::empty());
        assert(leb_value(s.drop_first()) == 0);
        assert(leb_value(s) == s[0] as nat);
        assert(leb128(leb_value(s)) =~= s);
    } else {
        let rest = s.drop_first();
        assert(rest.last() == s.last());
        assert forall|j: int| 0 <= j < rest.len() - 1 implies rest[j] >= 128 by {
            assert(rest[j] == s[j + 1]);
        }
        lemma_minimal_varint(rest);
        let l = leb_value(rest);
        if l == 0 {
            lemma_leb_value_zero(rest);
            assert(rest[rest.len() - 1] % 128 == 0);
        }
        let low = (s[0] % 128) as nat;
        lemma_join_base128(low, l);
        let v = leb_value(s);
        assert(v == low + 128 * l);
        assert(v >= 128);
        assert(leb128(v) == seq![(v % 128 + 128) as u8] + leb128(v / 128));
        assert((low + 128) as u8 == s[0]);
        assert(leb128(v) =~= s);
    }
}

/// Minimal varints of at most nine bytes hold less than `2^63`.
pub proof fn lemma_short_varint_value(s: Seq<u8>)
    requires
        s.len() <= 9,
    ensures
        leb_value(s) < 0x8000_0000_0000_0000,
{
    lemma_leb_value_bound(s, pow128(s.len()));
    lemma_pow128_monotone(s.len(), 9);
    reveal_with_fuel(pow128, 10);
    assert(pow128(9) == 0x8000_0000_0000_0000);
}

} // verus!
