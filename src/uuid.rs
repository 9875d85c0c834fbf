use vstd::prelude::*;
use vstd::string::*;
use crate::error::AppError;

verus! {

/// A 128-bit identifier laid out as a version-4 UUID.
pub struct Uuid(pub [u8; 16]);

/// Sixteen bytes with the version nibble set to 4 and the variant bits set
/// to `10`, as a version-4 UUID has them.
pub open spec fn v4_bytes_of(b: Seq<u8>) -> Seq<u8> {
    b.update(6, (b[6] & 0x0f) | 0x40).update(8, (b[8] & 0x3f) | 0x80)
}

/// The lower-case hexadecimal digit of a number below sixteen.
pub open spec fn hex_char(d: u8) -> char {
    "0123456789abcdef"@[d as int]
}

/// Two lower-case hexadecimal digits per byte, high digit first.
pub open spec fn hex_of(b: Seq<u8>) -> Seq<char>
    decreases b.len(),
{
    if b.len() == 0 {
        Seq::empty()
    } else {
        let x = b.last();
        hex_of(b.drop_last()) + seq![hex_char(x >> 4), hex_char(x & 0x0f)]
    }
}

/// The job token named by identifier bytes.
pub open spec fn job_token_of(b: Seq<u8>) -> Seq<char> {
    "job_"@ + hex_of(b)
}

/// Relies on getrandom::fill: sixteen bytes from the operating system's
/// random source, or none when that source fails.
#[verifier::external_body]
fn os_random_bytes() -> (r: Option<[u8; 16]>) {
    let mut b = [0u8; 16];
    getrandom::fill(&mut b).ok().map(|_| b)
}

fn hex_digit(d: u8) -> (r: &'static str)
    requires
        d < 16,
    ensures
        r@ == seq![hex_char(d)],
{
    let digits = "0123456789abcdef";
    proof {
        reveal_strlit("0123456789abcdef");
    }
    let r = digits.substring_char(d as usize, d as usize + 1);
    assert(r@ =~= seq![hex_char(d)]);
    r
}

impl Uuid {
    /// The version-4 identifier made of the given bytes.
    pub fn from_bytes(b: [u8; 16]) -> (r: Uuid)
        ensures
            r.0@ == v4_bytes_of(b@),
    {
        let mut bytes = b;
        bytes[6] = (bytes[6] & 0x0f) | 0x40;
        bytes[8] = (bytes[8] & 0x3f) | 0x80;
        let r = Uuid(bytes);
        assert(r.0@ =~= v4_bytes_of(b@));
        r
    }

    /// A fresh random identifier, from the operating system's random
    /// source; an internal error when that source fails.
    pub fn new_v4() -> (r: Result<Uuid, AppError>)
        ensures
            match r {
                Ok(id) => exists|b: Seq<u8>| b.len() == 16 && id.0@ == v4_bytes_of(b),
                Err(e) => e is InternalError,
            },
    {
        match os_random_bytes() {
            Some(b) => Ok(Uuid::from_bytes(b)),
            None => Err(
                AppError::InternalError(String::from_str("Failed to draw a random identifier")),
            ),
        }
    }

    /// The digits of the bytes from `lo` up to `hi`.
    fn hex_range(&self, lo: usize, hi: usize) -> (r: String)
        requires
            lo <= hi <= 16,
        ensures
            r@ == hex_of(self.0@.subrange(lo as int, hi as int)),
    {
        let mut s = String::new();
        let mut i: usize = lo;
        while i < hi
            invariant
                lo <= i <= hi <= 16,
                self.0@.len() == 16,
                s@ == hex_of(self.0@.subrange(lo as int, i as int)),
            decreases hi - i,
        {
            let x = self.0[i];
            assert(self.0@.subrange(lo as int, i + 1).drop_last() =~= self.0@.subrange(lo as int, i as int));
            assert(x >> 4 < 16 && x & 0x0f < 16) by (bit_vector);
            s.append(hex_digit(x >> 4));
            s.append(hex_digit(x & 0x0f));
            i = i + 1;
        }
        s
    }

    /// The identifier as 32 lower-case hexadecimal digits.
    pub fn simple(&self) -> (r: String)
        ensures
            r@ == hex_of(self.0@),
    {
        let r = self.hex_range(0, 16);
        assert(self.0@.subrange(0, 16) =~= self.0@);
        r
    }

    /// The identifier in its usual text form: groups of 8, 4, 4, 4 and 12
    /// lower-case hexadecimal digits joined by hyphens.
    pub fn hyphenated(&self) -> (r: String)
        ensures
            r@ == hex_of(self.0@.subrange(0, 4)) + "-"@ + hex_of(self.0@.subrange(4, 6)) + "-"@
                + hex_of(self.0@.subrange(6, 8)) + "-"@ + hex_of(self.0@.subrange(8, 10)) + "-"@
                + hex_of(self.0@.subrange(10, 16)),
    {
        let s = self.hex_range(0, 4).concat("-");
        let s = s.concat(self.hex_range(4, 6).as_str()).concat("-");
        let s = s.concat(self.hex_range(6, 8).as_str()).concat("-");
        let s = s.concat(self.hex_range(8, 10).as_str()).concat("-");
        s.concat(self.hex_range(10, 16).as_str())
    }

    /// The token that names a job: `job_` followed by the identifier's digits.
    pub fn job_token(&self) -> (r: String)
        ensures
            r@ == job_token_of(self.0@),
    {
        let digits = self.simple();
        let head = String::from_str("job_");
        head.concat(digits.as_str())
    }
}

proof fn hex_of_len(b: Seq<u8>)
    ensures
        hex_of(b).len() == 2 * b.len(),
    decreases b.len(),
{
    if b.len() > 0 {
        hex_of_len(b.drop_last());
    }
}

proof fn hex_of_injective(a: Seq<u8>, b: Seq<u8>)
    requires
        a.len() == b.len(),
        hex_of(a) == hex_of(b),
    ensures
        a == b,
    decreases a.len(),
{
    if a.len() > 0 {
        let x = a.last();
        let y = b.last();
        hex_of_len(a.drop_last());
        hex_of_len(b.drop_last());
        let n = hex_of(a).len();
        reveal_strlit("0123456789abcdef");
        assert(x >> 4 < 16 && x & 0x0f < 16 && y >> 4 < 16 && y & 0x0f < 16) by (bit_vector);
        assert(hex_of(a)[n - 2] == hex_char(x >> 4));
        assert(hex_of(b)[n - 2] == hex_char(y >> 4));
        assert(hex_of(a)[n - 1] == hex_char(x & 0x0f));
        assert(hex_of(b)[n - 1] == hex_char(y & 0x0f));
        assert(x >> 4 == y >> 4);
        assert(x & 0x0f == y & 0x0f);
        assert(x == y) by (bit_vector)
            requires
                x >> 4 == y >> 4,
                x & 0x0f == y & 0x0f,
        ;
        assert(hex_of(a.drop_last()) =~= hex_of(a).subrange(0, n - 2));
        assert(hex_of(b.drop_last()) =~= hex_of(b).subrange(0, n - 2));
        hex_of_injective(a.drop_last(), b.drop_last());
        assert(a =~= a.drop_last().push(x));
        assert(b =~= b.drop_last().push(y));
    }
}

/// Different identifiers name different jobs: two identifiers whose bytes
/// differ give different job tokens.
pub proof fn distinct_ids_give_distinct_tokens(a: Uuid, b: Uuid)
    requires
        a.0@ != b.0@,
    ensures
        job_token_of(a.0@) != job_token_of(b.0@),
{
    if job_token_of(a.0@) == job_token_of(b.0@) {
        reveal_strlit("job_");
        assert(hex_of(a.0@) =~= job_token_of(a.0@).subrange(4, job_token_of(a.0@).len() as int));
        assert(hex_of(b.0@) =~= job_token_of(b.0@).subrange(4, job_token_of(b.0@).len() as int));
        hex_of_injective(a.0@, b.0@);
    }
}

/// Mints the token of a new job; an internal error when no random
/// identifier can be drawn.
pub fn new_job_token() -> (r: Result<String, AppError>)
    ensures
        match r {
            Ok(t) => exists|b: Seq<u8>| b.len() == 16 && t@ == job_token_of(v4_bytes_of(b)),
            Err(e) => e is InternalError,
        },
{
    match Uuid::new_v4() {
        Ok(id) => Ok(id.job_token()),
        Err(e) => Err(e),
    }
}

} // verus!
