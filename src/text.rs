use vstd::prelude::*;
use vstd::string::*;
use validator::ValidateEmail;

verus! {

/// What `str::to_lowercase` makes of a sequence of characters.
pub uninterp spec fn lower_of(s: Seq<char>) -> Seq<char>;

/// Whether the address passes the HTML5 e-mail pattern (user part, domain part,
/// IP literal or IDN) that `validator` checks, beyond holding an `@`.
pub uninterp spec fn email_pattern(s: Seq<char>) -> bool;

/// Relies on `str::to_lowercase`: the result depends on the characters alone.
#[verifier::external_body]
pub(crate) fn to_lower(s: &str) -> (r: String)
    ensures
        r@ == lower_of(s@),
        s@.len() == 0 ==> r@.len() == 0,
{
    s.to_lowercase()
}

/// The address holds an `@` somewhere.
pub open spec fn has_at(s: Seq<char>) -> bool {
    exists|i: int| 0 <= i < s.len() && s[i] == '@'
}

/// What `validator` accepts as an e-mail address.
pub open spec fn email_syntax_ok(s: Seq<char>) -> bool {
    has_at(s) && email_pattern(s)
}

/// Relies on `validator::ValidateEmail::validate_email` for `&str`: it rejects
/// a string without an `@` and otherwise applies its fixed pattern.
#[verifier::external_body]
pub(crate) fn is_valid_email(s: &str) -> (r: bool)
    ensures
        r == (has_at(s@) && email_pattern(s@)),
{
    s.validate_email()
}

/// Index of the last `@` among the first `n` characters, or -1 if there is none.
pub open spec fn last_at_before(s: Seq<char>, n: int) -> int
    decreases n,
{
    if n <= 0 {
        -1
    } else if s[n - 1] == '@' {
        n - 1
    } else {
        last_at_before(s, n - 1)
    }
}

/// Index of the last `@` of the address, or -1 if there is none.
pub open spec fn last_at(s: Seq<char>) -> int {
    last_at_before(s, s.len() as int)
}

/// The part of the address after its last `@`: the whole address if it has none.
pub open spec fn domain_of(s: Seq<char>) -> Seq<char> {
    s.subrange(last_at(s) + 1, s.len() as int)
}

proof fn lemma_last_at_before_bounds(s: Seq<char>, n: int)
    requires
        0 <= n <= s.len(),
    ensures
        -1 <= last_at_before(s, n) < n,
        last_at_before(s, n) >= 0 ==> s[last_at_before(s, n)] == '@',
        last_at_before(s, n) == -1 ==> forall|j: int| 0 <= j < n ==> s[j] != '@',
    decreases n,
{
    if n > 0 && s[n - 1] != '@' {
        lemma_last_at_before_bounds(s, n - 1);
    }
}

/// The characters after the last `@` of `s` (all of `s` where it has none).
pub fn domain_part(s: &str) -> (r: &str)
    ensures
        r@ == domain_of(s@),
{
    let len = s.unicode_len();
    let mut i: usize = len;
    while i > 0 && s.get_char(i - 1) != '@'
        invariant
            len == s@.len(),
            0 <= i <= len,
            last_at_before(s@, i as int) == last_at(s@),
        decreases i,
    {
        i = i - 1;
    }
    proof {
        lemma_last_at_before_bounds(s@, len as int);
    }
    s.substring_char(i, len)
}

} // verus!
