use vstd::prelude::*;
use vstd::string::StrSliceExecFns;

verus! {

/// The case-folded code point of one character: an ASCII upper-case letter
/// maps to its lower-case counterpart, every other character is unchanged.
pub open spec fn fold_code(c: char) -> u32 {
    if 65 <= c as u32 && c as u32 <= 90 {
        (c as u32 + 32) as u32
    } else {
        c as u32
    }
}

/// Two character sequences are equal up to ASCII case.
pub open spec fn eq_ignore_case(a: Seq<char>, b: Seq<char>) -> bool {
    &&& a.len() == b.len()
    &&& forall|i: int| 0 <= i < a.len() ==> #[trigger] fold_code(a[i]) == fold_code(b[i])
}

/// Equality up to ASCII case of two names transfers to any third: a candidate
/// matches one of them exactly when it matches the other.
pub proof fn lemma_eq_ignore_case_respects(c: Seq<char>, n1: Seq<char>, n2: Seq<char>)
    requires
        eq_ignore_case(n1, n2),
    ensures
        eq_ignore_case(c, n1) == eq_ignore_case(c, n2),
{
    if eq_ignore_case(c, n1) {
        assert forall|i: int| 0 <= i < c.len() implies #[trigger] fold_code(c[i]) == fold_code(
            n2[i],
        ) by {
            assert(fold_code(c[i]) == fold_code(n1[i]));
            assert(fold_code(n1[i]) == fold_code(n2[i]));
        }
    }
    if eq_ignore_case(c, n2) {
        assert forall|i: int| 0 <= i < c.len() implies #[trigger] fold_code(c[i]) == fold_code(
            n1[i],
        ) by {
            assert(fold_code(c[i]) == fold_code(n2[i]));
            assert(fold_code(n1[i]) == fold_code(n2[i]));
        }
    }
}

/// Case-folds one character's code point.
fn fold_code_exec(c: char) -> (r: u32)
    ensures
        r == fold_code(c),
{
    let x = c as u32;
    if 65 <= x && x <= 90 {
        x + 32
    } else {
        x
    }
}

/// ASCII-case-insensitive string equality, decided character by character.
pub fn str_eq_ignore_case(a: &str, b: &str) -> (r: bool)
    ensures
        r == eq_ignore_case(a@, b@),
{
    let alen = a.unicode_len();
    let blen = b.unicode_len();
    if alen != blen {
        return false;
    }
    let mut i: usize = 0;
    while i < alen
        invariant
            alen == a@.len(),
            blen == b@.len(),
            alen == blen,
            i <= alen,
            forall|j: int| 0 <= j < i ==> #[trigger] fold_code(a@[j]) == fold_code(b@[j]),
        decreases alen - i,
    {
        let ca = a.get_char(i);
        let cb = b.get_char(i);
        if fold_code_exec(ca) != fold_code_exec(cb) {
            return false;
        }
        i = i + 1;
    }
    true
}

/// The character sequence that `str::to_uppercase` produces for `s`; it is a
/// function of the characters alone.
pub uninterp spec fn upper_of(s: Seq<char>) -> Seq<char>;

/// Relies on str::to_uppercase: the Unicode upper-case form of the string,
/// determined by the input characters alone.
#[verifier::external_body]
fn to_upper(s: &str) -> (r: String)
    ensures
        r@ == upper_of(s@),
{
    s.to_uppercase()
}

/// The canonical form of a user-supplied chain name: forced to upper case,
/// which is how the subsystem stores the name when a chain is created.
pub fn canonical_chain_name(chain: &str) -> (r: String)
    ensures
        r@ == upper_of(chain@),
{
    to_upper(chain)
}

} // verus!
