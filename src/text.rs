use vstd::prelude::*;
use vstd::string::*;

verus! {

/// Whether an HTTP status code lies in the success class (200 to 299).
pub open spec fn is_success_code(code: u16) -> bool {
    200 <= code && code < 300
}

/// Tells whether an HTTP status code is a success (2xx) status.
pub fn is_success_status(code: u16) -> (r: bool)
    ensures
        r == is_success_code(code),
{
    200 <= code && code < 300
}

/// Compares two strings character by character.
pub fn same_text(a: &str, b: &str) -> (r: bool)
    ensures
        r == (a@ == b@),
{
    let n = a.unicode_len();
    if n != b.unicode_len() {
        return false;
    }
    let mut i: usize = 0;
    while i < n
        invariant
            n == a@.len(),
            n == b@.len(),
            i <= n,
            forall|j: int| 0 <= j < i ==> a@[j] == b@[j],
        decreases n - i,
    {
        if a.get_char(i) != b.get_char(i) {
            return false;
        }
        i = i + 1;
    }
    assert(a@ =~= b@);
    true
}

/// The concatenation of a literal prefix and a string.
pub fn prefixed(prefix: &str, s: &str) -> (r: String)
    ensures
        r@ == prefix@ + s@,
{
    let head = String::from_str(prefix);
    head.concat(s)
}

} // verus!
