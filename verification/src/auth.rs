//! The basic-auth guard protecting the admin routes.
//!
//! A request passes the guard exactly when its `Authorization` header reads
//! `Basic <base64 of "user:password">` with the configured admin credentials.
//! The comparison happens on the decoded bytes, which (UTF-8 being an
//! injective encoding) agrees with the byte-for-byte string comparison the
//! protocol demands: the part before the first colon must spell the admin
//! user name and the rest the admin password.

use vstd::prelude::*;
use vstd::slice::slice_index_get;
use vstd::utf8::encode_utf8;

use base64::Engine;

verus! {

/// What base64's standard-alphabet decoding returns for this input, or
/// nothing when the input is not valid base64.
pub uninterp spec fn spec_base64_decode(s: Seq<char>) -> Option<Seq<u8>>;

/// Relies on base64's `Engine::decode` with the `STANDARD` engine: the
/// result is a function of the input characters alone, and decoding fails
/// exactly on input that is not standard-alphabet base64.
#[verifier::external_body]
fn base64_decode(s: &str) -> (r: Option<Vec<u8>>)
    ensures
        match r {
            Some(v) => spec_base64_decode(s@) == Some(v@),
            None => spec_base64_decode(s@) is None,
        },
{
    base64::engine::general_purpose::STANDARD.decode(s).ok()
}

/// The decoded credential bytes spell `user`, a colon, then `pass`.  Because
/// the guard splits at the first colon, a colon inside the expected user name
/// can never match.
pub open spec fn spec_credentials_match(bytes: Seq<u8>, user: Seq<char>, pass: Seq<char>) -> bool {
    let u = encode_utf8(user);
    let p = encode_utf8(pass);
    &&& !u.contains(58u8)
    &&& bytes == u + seq![58u8] + p
}

/// When the guard admits a request: the header is present, carries the `Basic ` scheme,
/// its remainder decodes as base64, and the decoded bytes match the admin
/// credentials at the first colon.
pub open spec fn spec_basic_auth_ok(
    header: Option<Seq<char>>,
    user: Seq<char>,
    pass: Seq<char>,
) -> bool {
    match header {
        None => false,
        Some(h) => {
            &&& h.len() >= 6
            &&& h.take(6) == "Basic "@
            &&& match spec_base64_decode(h.skip(6)) {
                Some(bytes) => spec_credentials_match(bytes, user, pass),
                None => false,
            }
        },
    }
}

/// The admin credentials themselves are admitted: a header that carries the
/// `Basic ` scheme and whose remainder decodes to the user name, a colon and
/// the password passes the check.  The proviso that the admin user name's
/// UTF-8 holds no colon byte is basic auth's own: the credential field is
/// split at its first colon, so a user-id containing one can never
/// authenticate.
pub proof fn lemma_admin_credentials_admitted(header: Seq<char>, user: Seq<char>, pass: Seq<char>)
    requires
        header.len() >= 6,
        header.take(6) == "Basic "@,
        !encode_utf8(user).contains(58u8),
        spec_base64_decode(header.skip(6)) == Some(
            encode_utf8(user) + seq![58u8] + encode_utf8(pass),
        ),
    ensures
        spec_basic_auth_ok(Some(header), user, pass),
{
}

fn find_first_colon(bytes: &Vec<u8>) -> (r: Option<usize>)
    ensures
        match r {
            Some(i) => i < bytes@.len() && bytes@[i as int] == 58u8 && forall|j: int|
                0 <= j < i ==> bytes@[j] != 58u8,
            None => forall|j: int| 0 <= j < bytes@.len() ==> bytes@[j] != 58u8,
        },
{
    let n = bytes.len();
    let mut i: usize = 0;
    while i < n
        invariant
            i <= n,
            n == bytes@.len(),
            forall|j: int| 0 <= j < i ==> bytes@[j] != 58u8,
        decreases n - i,
    {
        if bytes[i] == 58u8 {
            return Some(i);
        }
        i = i + 1;
    }
    None
}

fn bytes_range_eq(v: &Vec<u8>, start: usize, end: usize, s: &[u8]) -> (r: bool)
    requires
        start <= end <= v@.len(),
    ensures
        r == (v@.subrange(start as int, end as int) == s@),
{
    let sl = s.len();
    if end - start != sl {
        proof {
            assert(v@.subrange(start as int, end as int).len() == end - start);
        }
        return false;
    }
    let mut j: usize = 0;
    while j < sl
        invariant
            j <= sl,
            sl == s@.len(),
            end - start == sl,
            start <= end <= v@.len(),
            forall|k: int| 0 <= k < j ==> v@[start + k] == s@[k],
        decreases sl - j,
    {
        if *slice_index_get(v.as_slice(), start + j) != *slice_index_get(s, j) {
            proof {
                assert(v@.subrange(start as int, end as int)[j as int] == v@[start + j]);
            }
            return false;
        }
        j = j + 1;
    }
    proof {
        assert(v@.subrange(start as int, end as int) =~= s@);
    }
    true
}

/// Checks an `Authorization` header against the admin credentials.  With no
/// header, a non-`Basic` scheme, undecodable base64 or mismatched
/// credentials the guard refuses the request.
pub fn check_basic_auth(auth_header: Option<&str>, admin_username: &str, admin_password: &str) -> (r:
    bool)
    ensures
        r == spec_basic_auth_ok(
            match auth_header {
                Some(h) => Some(h@),
                None => None,
            },
            admin_username@,
            admin_password@,
        ),
{
    let h = match auth_header {
        Some(h) => h,
        None => {
            return false;
        },
    };
    let n = h.unicode_len();
    if n < 6 {
        return false;
    }
    let scheme_ok = h.get_char(0) == 'B' && h.get_char(1) == 'a' && h.get_char(2) == 's'
        && h.get_char(3) == 'i' && h.get_char(4) == 'c' && h.get_char(5) == ' ';
    if !scheme_ok {
        proof {
            reveal_strlit("Basic ");
            assert(h@.take(6) != "Basic "@) by {
                if h@.take(6) == "Basic "@ {
                    assert(h@[0] == h@.take(6)[0]);
                    assert(h@[1] == h@.take(6)[1]);
                    assert(h@[2] == h@.take(6)[2]);
                    assert(h@[3] == h@.take(6)[3]);
                    assert(h@[4] == h@.take(6)[4]);
                    assert(h@[5] == h@.take(6)[5]);
                }
            }
        }
        return false;
    }
    proof {
        reveal_strlit("Basic ");
        assert(h@.take(6) =~= "Basic "@);
    }
    let rest = h.substring_char(6, n);
    proof {
        assert(rest@ =~= h@.skip(6));
    }
    let decoded = base64_decode(rest);
    let bytes = match decoded {
        Some(b) => b,
        None => {
            return false;
        },
    };
    let ub = admin_username.as_bytes();
    let pb = admin_password.as_bytes();
    let ghost u = encode_utf8(admin_username@);
    let ghost p = encode_utf8(admin_password@);
    let m = bytes.len();
    match find_first_colon(&bytes) {
        None => {
            proof {
                if spec_credentials_match(bytes@, admin_username@, admin_password@) {
                    assert(bytes@.len() == u.len() + 1 + p.len());
                    assert(bytes@[u.len() as int] == 58u8);
                }
            }
            false
        },
        Some(i) => {
            let user_ok = bytes_range_eq(&bytes, 0, i, ub);
            let pass_ok = bytes_range_eq(&bytes, i + 1, m, pb);
            proof {
                let b = bytes@;
                if user_ok && pass_ok {
                    assert(b.subrange(0, i as int) == u);
                    assert forall|k: int| 0 <= k < u.len() implies u[k] != 58u8 by {
                        assert(u[k] == b.subrange(0, i as int)[k]);
                        assert(b[k] != 58u8);
                    }
                    assert(!u.contains(58u8));
                    assert(b =~= u + seq![58u8] + p);
                } else {
                    if spec_credentials_match(b, admin_username@, admin_password@) {
                        assert(b == u + seq![58u8] + p);
                        assert(b.len() == u.len() + 1 + p.len());
                        assert forall|k: int| 0 <= k < u.len() implies b[k] != 58u8 by {
                            assert(b[k] == u[k]);
                            if u[k] == 58u8 {
                                assert(u.contains(58u8));
                            }
                        }
                        assert(b[u.len() as int] == 58u8);
                        assert(i as int == u.len()) by {
                            if (i as int) < u.len() {
                                assert(b[i as int] != 58u8);
                            }
                            if (i as int) > u.len() {
                                assert(b[u.len() as int] != 58u8);
                            }
                        }
                        assert(b.subrange(0, i as int) =~= u);
                        assert(b.subrange(i + 1, b.len() as int) =~= p);
                        assert(user_ok && pass_ok);
                    }
                }
            }
            user_ok && pass_ok
        },
    }
}

} // verus!
