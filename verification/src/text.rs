//! Text helpers of the naming policy: filesystem-safe name sanitization,
//! decimal rendering of numeric ids, and the setup-file suffix test.

use vstd::prelude::*;

verus! {

/// The characters that may not appear in a path segment.
pub open spec fn spec_forbidden_char(c: char) -> bool {
    c == '/' || c == '\\' || c == ':' || c == '*' || c == '?' || c == '"' || c == '<' || c == '>'
        || c == '|'
}

/// What `sanitize_filename` does to a single character.
pub open spec fn spec_sanitize_char(c: char) -> char {
    if spec_forbidden_char(c) {
        '_'
    } else {
        c
    }
}

/// The sanitized form of a name: every forbidden character becomes `'_'`,
/// every other character stays in place.
pub open spec fn spec_sanitize(s: Seq<char>) -> Seq<char> {
    s.map_values(|c: char| spec_sanitize_char(c))
}

/// Relies on std's `String::push`: appends exactly one character.
#[verifier::external_body]
fn push_char(s: &mut String, c: char)
    ensures
        final(s)@ == old(s)@.push(c),
{
    s.push(c);
}

/// Replaces every character of `{/ \ : * ? " < > |}` with `'_'`, leaving all
/// other characters where they are.
pub fn sanitize_filename(name: &str) -> (r: String)
    ensures
        r@ == spec_sanitize(name@),
{
    let n = name.unicode_len();
    let mut r = String::new();
    let mut i: usize = 0;
    while i < n
        invariant
            n == name@.len(),
            i <= n,
            r@.len() == i,
            forall|j: int| 0 <= j < i ==> r@[j] == spec_sanitize_char(name@[j]),
        decreases n - i,
    {
        let c = name.get_char(i);
        let s = if c == '/' || c == '\\' || c == ':' || c == '*' || c == '?' || c == '"' || c == '<'
            || c == '>' || c == '|' {
            '_'
        } else {
            c
        };
        push_char(&mut r, s);
        i = i + 1;
    }
    proof {
        assert(r@ =~= spec_sanitize(name@));
    }
    r
}

/// Sanitized names are filesystem-safe: no forbidden character survives, and
/// each one is replaced by `'_'` exactly where it occurred.
pub proof fn lemma_sanitize_filename_safe(s: Seq<char>)
    ensures
        spec_sanitize(s).len() == s.len(),
        forall|i: int| 0 <= i < s.len() ==> !spec_forbidden_char(#[trigger] spec_sanitize(s)[i]),
        forall|i: int| 0 <= i < s.len() && spec_forbidden_char(s[i]) ==> spec_sanitize(s)[i] == '_',
        forall|i: int| 0 <= i < s.len() && !spec_forbidden_char(s[i]) ==> spec_sanitize(s)[i]
            == s[i],
{
}

/// The decimal digit characters, by value.
pub open spec fn spec_decimal_digit(d: int) -> char {
    if d == 0 {
        '0'
    } else if d == 1 {
        '1'
    } else if d == 2 {
        '2'
    } else if d == 3 {
        '3'
    } else if d == 4 {
        '4'
    } else if d == 5 {
        '5'
    } else if d == 6 {
        '6'
    } else if d == 7 {
        '7'
    } else if d == 8 {
        '8'
    } else {
        '9'
    }
}

/// The usual decimal rendering of a natural number, most significant digit
/// first, without leading zeros (except for the number zero itself).
pub open spec fn spec_decimal(n: nat) -> Seq<char>
    decreases n,
{
    if n < 10 {
        seq![spec_decimal_digit(n as int)]
    } else {
        spec_decimal((n / 10) as nat).push(spec_decimal_digit((n % 10) as int))
    }
}

fn decimal_digit(d: u32) -> (c: char)
    requires
        d < 10,
    ensures
        c == spec_decimal_digit(d as int),
{
    if d == 0 {
        '0'
    } else if d == 1 {
        '1'
    } else if d == 2 {
        '2'
    } else if d == 3 {
        '3'
    } else if d == 4 {
        '4'
    } else if d == 5 {
        '5'
    } else if d == 6 {
        '6'
    } else if d == 7 {
        '7'
    } else if d == 8 {
        '8'
    } else {
        '9'
    }
}

/// Renders an id in decimal, as the remote catalog keys its entries.
pub fn decimal_string(n: u32) -> (r: String)
    ensures
        r@ == spec_decimal(n as nat),
{
    let mut digits: Vec<char> = Vec::new();
    let mut m = n;
    while m >= 10
        invariant
            spec_decimal(n as nat) =~= spec_decimal(m as nat) + digits@.reverse(),
        decreases m,
    {
        let d = decimal_digit(m % 10);
        digits.push(d);
        proof {
            assert(digits@.reverse() =~= seq![d] + digits@.drop_last().reverse());
        }
        m = m / 10;
    }
    let d = decimal_digit(m);
    digits.push(d);
    proof {
        assert(digits@.reverse() =~= seq![d] + digits@.drop_last().reverse());
        assert(spec_decimal(n as nat) =~= digits@.reverse());
    }
    let mut r = String::new();
    let mut i: usize = digits.len();
    while i > 0
        invariant
            i <= digits@.len(),
            r@.len() == digits@.len() - i,
            forall|j: int| 0 <= j < r@.len() ==> r@[j] == digits@.reverse()[j],
            spec_decimal(n as nat) == digits@.reverse(),
        decreases i,
    {
        i = i - 1;
        let c = digits[i];
        push_char(&mut r, c);
    }
    proof {
        assert(r@ =~= digits@.reverse());
    }
    r
}

/// `needle` occurs in `h` starting at position `i`.
pub open spec fn spec_contains_at(h: Seq<char>, needle: Seq<char>, i: int) -> bool {
    0 <= i && i + needle.len() <= h.len() && h.subrange(i, i + needle.len()) == needle
}

/// `needle` occurs somewhere in `h`.
pub open spec fn spec_contains_substring(h: Seq<char>, needle: Seq<char>) -> bool {
    exists|i: int| spec_contains_at(h, needle, i)
}

fn match_at(haystack: &str, needle: &str, i: usize) -> (r: bool)
    requires
        i + needle@.len() <= haystack@.len(),
    ensures
        r == spec_contains_at(haystack@, needle@, i as int),
{
    let hl = haystack.unicode_len();
    let nn = needle.unicode_len();
    let mut j: usize = 0;
    while j < nn
        invariant
            j <= nn,
            nn == needle@.len(),
            hl == haystack@.len(),
            i + nn <= hl,
            forall|k: int| 0 <= k < j ==> haystack@[i + k] == needle@[k],
        decreases nn - j,
    {
        if haystack.get_char(i + j) != needle.get_char(j) {
            proof {
                assert(haystack@.subrange(i as int, i + nn)[j as int] == haystack@[i + j]);
            }
            return false;
        }
        j = j + 1;
    }
    proof {
        assert(haystack@.subrange(i as int, i + nn) =~= needle@);
    }
    true
}

/// Does `needle` occur anywhere in `haystack`?  (How the one-shot connection
/// tool reads a vault listing: the domain's presence in the output.)
pub fn contains_substring(haystack: &str, needle: &str) -> (r: bool)
    ensures
        r == spec_contains_substring(haystack@, needle@),
{
    let hn = haystack.unicode_len();
    let nn = needle.unicode_len();
    if nn > hn {
        proof {
            if spec_contains_substring(haystack@, needle@) {
                let i = choose|i: int| spec_contains_at(haystack@, needle@, i);
            }
        }
        return false;
    }
    if nn == 0 {
        proof {
            assert(haystack@.subrange(0, 0) =~= needle@);
            assert(spec_contains_at(haystack@, needle@, 0));
        }
        return true;
    }
    let mut i: usize = 0;
    while i <= hn - nn
        invariant
            hn == haystack@.len(),
            nn == needle@.len(),
            0 < nn <= hn,
            i <= hn - nn + 1,
            forall|k: int| 0 <= k < i ==> !spec_contains_at(haystack@, needle@, k),
        decreases hn + 1 - nn - i,
    {
        if match_at(haystack, needle, i) {
            return true;
        }
        i = i + 1;
    }
    proof {
        if spec_contains_substring(haystack@, needle@) {
            let k = choose|k: int| spec_contains_at(haystack@, needle@, k);
            assert(k <= hn - nn);
            assert(!spec_contains_at(haystack@, needle@, k));
        }
    }
    false
}

/// True of the file names the agent mirrors: those ending in the exact,
/// case-sensitive suffix `.sto`.
pub open spec fn spec_is_setup_file(s: Seq<char>) -> bool {
    s.len() >= 4 && s[s.len() - 4] == '.' && s[s.len() - 3] == 's' && s[s.len() - 2] == 't' && s[
        s.len() - 1] == 'o'
}

/// Does this file name end in `.sto`?
pub fn is_setup_file(name: &str) -> (r: bool)
    ensures
        r == spec_is_setup_file(name@),
{
    let n = name.unicode_len();
    if n < 4 {
        return false;
    }
    name.get_char(n - 4) == '.' && name.get_char(n - 3) == 's' && name.get_char(n - 2) == 't'
        && name.get_char(n - 1) == 'o'
}

} // verus!
