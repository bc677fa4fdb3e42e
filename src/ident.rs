use vstd::prelude::*;

verus! {

/// The lower-case hex digit of a value below 16.
pub open spec fn hex_char(n: int) -> char {
    if n == 0 { '0' }
    else if n == 1 { '1' }
    else if n == 2 { '2' }
    else if n == 3 { '3' }
    else if n == 4 { '4' }
    else if n == 5 { '5' }
    else if n == 6 { '6' }
    else if n == 7 { '7' }
    else if n == 8 { '8' }
    else if n == 9 { '9' }
    else if n == 10 { 'a' }
    else if n == 11 { 'b' }
    else if n == 12 { 'c' }
    else if n == 13 { 'd' }
    else if n == 14 { 'e' }
    else { 'f' }
}

pub open spec fn is_hex_char(c: char) -> bool {
    ('0' <= c && c <= '9') || ('a' <= c && c <= 'f')
}

/// The last `n` hex digits of `v`, most significant first.
pub open spec fn digits(v: nat, n: nat) -> Seq<char>
    decreases n,
{
    if n == 0 {
        Seq::empty()
    } else {
        digits(v / 16, (n - 1) as nat).push(hex_char((v % 16) as int))
    }
}

/// The text of a store id: its 32 hex digits, most significant first, grouped
/// 8-4-4-4-12 and joined by hyphens.
pub open spec fn hyphenated(id: u128) -> Seq<char> {
    let d = digits(id as nat, 32);
    d.subrange(0, 8) + seq!['-'] + d.subrange(8, 12) + seq!['-'] + d.subrange(12, 16)
        + seq!['-'] + d.subrange(16, 20) + seq!['-'] + d.subrange(20, 32)
}

pub open spec fn is_hyphen_position(i: int) -> bool {
    i == 8 || i == 13 || i == 18 || i == 23
}

/// A well-formed id text: 36 characters, hyphens at the four group boundaries and
/// lower-case hex digits everywhere else.
pub open spec fn is_id_text(s: Seq<char>) -> bool {
    &&& s.len() == 36
    &&& forall|i: int|
        0 <= i < 36 ==> (if is_hyphen_position(i) {
            s[i] == '-'
        } else {
            is_hex_char(#[trigger] s[i])
        })
}

pub open spec fn pow16(n: nat) -> nat
    decreases n,
{
    if n == 0 { 1 } else { 16 * pow16((n - 1) as nat) }
}

proof fn lemma_hex_char(n: int)
    requires
        0 <= n < 16,
    ensures
        is_hex_char(hex_char(n)),
        forall|m: int| 0 <= m < 16 && hex_char(m) == hex_char(n) ==> m == n,
{
}

proof fn lemma_digits(v: nat, n: nat)
    ensures
        digits(v, n).len() == n,
        forall|i: int| 0 <= i < n ==> is_hex_char(#[trigger] digits(v, n)[i]),
    decreases n,
{
    if n > 0 {
        lemma_digits(v / 16, (n - 1) as nat);
        lemma_hex_char((v % 16) as int);
    }
}

proof fn lemma_digits_injective(v: nat, w: nat, n: nat)
    requires
        v < pow16(n),
        w < pow16(n),
        digits(v, n) == digits(w, n),
    ensures
        v == w,
    decreases n,
{
    if n > 0 {
        let p = pow16((n - 1) as nat);
        lemma_digits(v / 16, (n - 1) as nat);
        lemma_digits(w / 16, (n - 1) as nat);
        let dv = digits(v / 16, (n - 1) as nat);
        let dw = digits(w / 16, (n - 1) as nat);
        assert(digits(v, n).drop_last() == dv);
        assert(digits(w, n).drop_last() == dw);
        assert(digits(v, n).last() == hex_char((v % 16) as int));
        lemma_hex_char((v % 16) as int);
        assert(v / 16 < p) by (nonlinear_arith)
            requires v < 16 * p;
        assert(w / 16 < p) by (nonlinear_arith)
            requires w < 16 * p;
        lemma_digits_injective(v / 16, w / 16, (n - 1) as nat);
    }
}

/// Every id text is well formed.
pub proof fn lemma_hyphenated_well_formed(id: u128)
    ensures
        is_id_text(hyphenated(id)),
{
    lemma_digits(id as nat, 32);
    let d = digits(id as nat, 32);
    let h = hyphenated(id);
    assert forall|i: int| 0 <= i < 36 implies (if is_hyphen_position(i) {
        h[i] == '-'
    } else {
        is_hex_char(#[trigger] h[i])
    }) by {
        if i < 8 {
            assert(h[i] == d[i]);
        } else if 8 < i < 13 {
            assert(h[i] == d[i - 1]);
        } else if 13 < i < 18 {
            assert(h[i] == d[i - 2]);
        } else if 18 < i < 23 {
            assert(h[i] == d[i - 3]);
        } else if 23 < i {
            assert(h[i] == d[i - 4]);
        }
    }
}

/// Distinct ids have distinct texts.
pub proof fn lemma_hyphenated_injective(a: u128, b: u128)
    ensures
        hyphenated(a) == hyphenated(b) ==> a == b,
{
    if hyphenated(a) == hyphenated(b) {
        lemma_digits(a as nat, 32);
        lemma_digits(b as nat, 32);
        let h = hyphenated(a);
        let regroup = h.subrange(0, 8) + h.subrange(9, 13) + h.subrange(14, 18) + h.subrange(
            19,
            23,
        ) + h.subrange(24, 36);
        assert(digits(a as nat, 32) =~= regroup);
        assert(digits(b as nat, 32) =~= regroup);
        reveal_with_fuel(pow16, 33);
        assert(pow16(32) == 0x1_0000_0000_0000_0000_0000_0000_0000_0000);
        lemma_digits_injective(a as nat, b as nat, 32);
    }
}

/// Relies on uuid's `Uuid::from_u128`, which takes the value's bytes most
/// significant first, and on its `Display`, which writes those bytes as
/// lower-case hex digits, two per byte, hyphenated after the 4th, 6th, 8th and
/// 10th byte.
#[verifier::external_body]
pub(crate) fn uuid_text(id: u128) -> (r: String)
    ensures
        r@ == hyphenated(id),
{
    uuid::Uuid::from_u128(id).to_string()
}

} // verus!
