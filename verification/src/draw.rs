use vstd::prelude::*;
use rand::Rng;

verus! {

/// `rand::thread_rng().gen_range(0..n)`: a number below `n`, drawn at random.
#[verifier::external_body]
fn draw_below(n: u8) -> (r: u8)
    requires
        n > 0,
    ensures
        r < n,
{
    rand::thread_rng().gen_range(0..n)
}

/// The character for a draw below 62: a digit, a lower-case letter, or an upper-case
/// letter.
pub open spec fn alnum_char(c: int) -> char {
    if c < 10 { (('0' as int) + c) as char } else if c < 36 { (('a' as int) + c - 10) as char } else { (('A' as int) + c - 36) as char }
}

/// A character of the 62-letter alphabet of tokens.
pub open spec fn is_alnum(c: char) -> bool {
    ('0' <= c <= '9') || ('a' <= c <= 'z') || ('A' <= c <= 'Z')
}

/// A character of the 36-letter alphabet of API keys.
pub open spec fn is_lower_alnum(c: char) -> bool {
    ('0' <= c <= '9') || ('a' <= c <= 'z')
}

fn alnum(c: u8) -> (r: char)
    requires
        c < 62,
    ensures
        r == alnum_char(c as int),
        is_alnum(r),
        c < 36 ==> is_lower_alnum(r),
{
    let b: u8 = if c < 10 { 48 + c } else if c < 36 { 97 + c - 10 } else { 65 + c - 36 };
    b as char
}

/// A random token of `n` characters from the 62-letter alphabet.
pub fn random_token(n: usize) -> (r: String)
    ensures
        r@.len() == n,
        forall|i: int| 0 <= i < n ==> is_alnum(#[trigger] r@[i]),
{
    let mut r = String::new();
    let mut i: usize = 0;
    while i < n
        invariant
            i <= n,
            r@.len() == i,
            forall|k: int| 0 <= k < i ==> is_alnum(#[trigger] r@[k]),
        decreases n - i,
    {
        let c = alnum(draw_below(62));
        crate::text::push_char(&mut r, c);
        i = i + 1;
    }
    r
}

/// A fresh merchant API key: `km_` and 30 random digits or lower-case letters.
pub fn random_api_key() -> (r: String)
    ensures
        r@.len() == 33,
        r@.subrange(0, 3) == "km_"@,
        forall|i: int| 3 <= i < 33 ==> is_lower_alnum(#[trigger] r@[i]),
{
    let mut r = "km_".to_owned();
    proof {
        reveal_strlit("km_");
    }
    let mut i: usize = 0;
    while i < 30
        invariant
            i <= 30,
            r@.len() == 3 + i,
            r@.subrange(0, 3) == "km_"@,
            forall|k: int| 3 <= k < 3 + i ==> is_lower_alnum(#[trigger] r@[k]),
        decreases 30 - i,
    {
        let c = alnum(draw_below(36));
        let ghost before = r@;
        crate::text::push_char(&mut r, c);
        assert(r@.subrange(0, 3) == before.subrange(0, 3));
        i = i + 1;
    }
    r
}

} // verus!
