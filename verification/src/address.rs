//! Case-insensitive comparison and validation of chain addresses.
//!
//! Addresses are held as plain ASCII byte strings (`0x` followed by hex
//! digits). The chain does not guarantee consistent casing of the hex part,
//! so every comparison folds ASCII letters to lower case first.

use vstd::prelude::*;

verus! {

/// ASCII lower-case folding of a single byte: upper-case letters move to
/// their lower-case counterpart, every other byte is unchanged.
pub open spec fn lower_byte(b: u8) -> u8 {
    if 65 <= b && b <= 90 {
        (b + 32) as u8
    } else {
        b
    }
}

/// A whole byte string folded to lower case.
pub open spec fn lower_bytes(s: Seq<u8>) -> Seq<u8> {
    s.map_values(|b: u8| lower_byte(b))
}

/// Two addresses denote the same account when they agree after case folding.
pub open spec fn addr_matches(a: Seq<u8>, b: Seq<u8>) -> bool {
    lower_bytes(a) == lower_bytes(b)
}

/// Executable lower-case folding of one byte.
pub fn fold_byte(b: u8) -> (r: u8)
    ensures
        r == lower_byte(b),
{
    if 65 <= b && b <= 90 {
        b + 32
    } else {
        b
    }
}

/// Case-insensitive equality of two addresses.
pub fn eq_ignore_ascii_case(a: &Vec<u8>, b: &Vec<u8>) -> (r: bool)
    ensures
        r == addr_matches(a@, b@),
{
    if a.len() != b.len() {
        assert(lower_bytes(a@).len() != lower_bytes(b@).len());
        return false;
    }
    let n = a.len();
    let mut i: usize = 0;
    while i < n
        invariant
            n == a.len() == b.len(),
            i <= n,
            forall|j: int| 0 <= j < i ==> lower_byte(a@[j]) == lower_byte(b@[j]),
        decreases n - i,
    {
        if fold_byte(a[i]) != fold_byte(b[i]) {
            assert(lower_bytes(a@)[i as int] != lower_bytes(b@)[i as int]);
            return false;
        }
        i = i + 1;
    }
    assert(lower_bytes(a@) =~= lower_bytes(b@));
    true
}

/// An ASCII hexadecimal digit, either case.
pub open spec fn is_hex_digit(b: u8) -> bool {
    (48 <= b && b <= 57) || (97 <= b && b <= 102) || (65 <= b && b <= 70)
}

/// A well-formed chain address: the two bytes `0x` followed by exactly forty
/// hexadecimal digits.
pub open spec fn spec_valid_address(s: Seq<u8>) -> bool {
    &&& s.len() == 42
    &&& s[0] == 48
    &&& s[1] == 120
    &&& forall|i: int| 2 <= i < 42 ==> is_hex_digit(#[trigger] s[i])
}

/// Executable check that an address is well-formed.
pub fn valid_address(s: &Vec<u8>) -> (r: bool)
    ensures
        r == spec_valid_address(s@),
{
    if s.len() != 42 {
        return false;
    }
    if s[0] != 48 || s[1] != 120 {
        return false;
    }
    let mut i: usize = 2;
    while i < 42
        invariant
            s.len() == 42,
            2 <= i <= 42,
            forall|j: int| 2 <= j < i ==> is_hex_digit(#[trigger] s@[j]),
        decreases 42 - i,
    {
        let b = s[i];
        if !((48 <= b && b <= 57) || (97 <= b && b <= 102) || (65 <= b && b <= 70)) {
            return false;
        }
        i = i + 1;
    }
    true
}

/// Folding is idempotent: folding an already folded byte changes nothing.
pub proof fn lemma_lower_byte_idempotent(b: u8)
    ensures
        lower_byte(lower_byte(b)) == lower_byte(b),
{
}

/// Case-insensitive matching ignores the casing of either side: an address
/// compares equal to its own lower-cased form, and lower-casing one side
/// never changes the outcome of a comparison.
pub proof fn lemma_match_case_insensitive(a: Seq<u8>, b: Seq<u8>)
    ensures
        addr_matches(a, lower_bytes(a)),
        addr_matches(lower_bytes(a), b) == addr_matches(a, b),
        addr_matches(a, b) == addr_matches(b, a),
{
    assert(lower_bytes(lower_bytes(a)) =~= lower_bytes(a)) by {
        assert forall|i: int| 0 <= i < a.len() implies lower_bytes(lower_bytes(a))[i]
            == lower_bytes(a)[i] by {
            lemma_lower_byte_idempotent(a[i]);
        }
    }
}

} // verus!
