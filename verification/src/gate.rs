//! The authorization gate: extracts the bearer credential from a
//! request's Authorization header, verifies it through the token codec,
//! checks role sufficiency, and either admits the request (yielding the
//! authenticated subject) or rejects it with a typed error.

use vstd::prelude::*;

use crate::error::Error;
use crate::role::{spec_role_name, spec_satisfies, Role};
use crate::token::{claims_of, spec_verify_outcome, TokenCodec};
use vstd::string::StrSliceExecFns;
use vstd::utf8::{decode_utf8, valid_utf8};

verus! {

/// Unicode whitespace, as trimmed around the token text: the code
/// points with the White_Space property.
pub open spec fn spec_is_ws_char(c: char) -> bool {
    let u = c as u32;
    ||| (9 <= u && u <= 13)
    ||| u == 32
    ||| u == 0x85
    ||| u == 0xA0
    ||| u == 0x1680
    ||| (0x2000 <= u && u <= 0x200A)
    ||| u == 0x2028
    ||| u == 0x2029
    ||| u == 0x202F
    ||| u == 0x205F
    ||| u == 0x3000
}

/// Decides `spec_is_ws_char`.
fn is_ws_char(c: char) -> (r: bool)
    ensures
        r == spec_is_ws_char(c),
{
    let u = c as u32;
    (9 <= u && u <= 13) || u == 32 || u == 0x85 || u == 0xA0 || u == 0x1680 || (0x2000 <= u && u
        <= 0x200A) || u == 0x2028 || u == 0x2029 || u == 0x202F || u == 0x205F || u == 0x3000
}

/// The header starts with the bytes of the literal scheme prefix
/// `"Bearer"` (case-sensitive).
pub open spec fn has_bearer_prefix(h: Seq<u8>) -> bool {
    &&& h.len() >= 6
    &&& h[0] == 66
    &&& h[1] == 101
    &&& h[2] == 97
    &&& h[3] == 114
    &&& h[4] == 101
    &&& h[5] == 114
}

/// What follows the scheme prefix is valid UTF-8.
pub open spec fn suffix_valid_utf8(h: Seq<u8>) -> bool {
    valid_utf8(h.subrange(6, h.len() as int))
}

/// `s` with its leading whitespace removed.
pub open spec fn trim_start_ws(s: Seq<char>) -> Seq<char>
    decreases s.len(),
{
    if s.len() > 0 && spec_is_ws_char(s[0]) {
        trim_start_ws(s.drop_first())
    } else {
        s
    }
}

/// `s` with its trailing whitespace removed.
pub open spec fn trim_end_ws(s: Seq<char>) -> Seq<char>
    decreases s.len(),
{
    if s.len() > 0 && spec_is_ws_char(s.last()) {
        trim_end_ws(s.drop_last())
    } else {
        s
    }
}

/// The token text within a Bearer header: the characters following the
/// scheme prefix, with surrounding whitespace trimmed.
pub open spec fn token_part(h: Seq<u8>) -> Seq<char> {
    trim_end_ws(trim_start_ws(decode_utf8(h.subrange(6, h.len() as int))))
}

/// The view of an optional header value.
pub open spec fn header_view(h: Option<&Vec<u8>>) -> Option<Seq<u8>> {
    match h {
        Some(v) => Some(v@),
        None => None,
    }
}

/// Relies on std::str::from_utf8: it succeeds exactly on valid UTF-8
/// input and yields the characters those bytes encode.
#[verifier::external_body]
fn bytes_to_str<'a>(b: &'a [u8]) -> (r: Option<&'a str>)
    ensures
        r matches Some(s) ==> valid_utf8(b@) && s@ == decode_utf8(b@),
        r is None ==> !valid_utf8(b@),
{
    std::str::from_utf8(b).ok()
}

/// Extracts the bearer token text from an optional Authorization header
/// value: the header must be present, carry the `"Bearer"` scheme
/// prefix, and hold valid UTF-8 after it.
pub fn jwt_from_headers(auth_header: Option<&Vec<u8>>) -> (r: Result<String, Error>)
    ensures
        match r {
            Ok(s) => {
                &&& auth_header matches Some(h)
                &&& has_bearer_prefix(h@)
                &&& suffix_valid_utf8(h@)
                &&& s@ == token_part(h@)
            },
            Err(e) => match auth_header {
                None => e == Error::NoAuthHeaderError,
                Some(h) => e == Error::InvalidAuthHeaderError && (!has_bearer_prefix(h@)
                    || !suffix_valid_utf8(h@)),
            },
        },
{
    let h = match auth_header {
        Some(h) => h,
        None => {
            return Err(Error::NoAuthHeaderError);
        },
    };
    let hlen = h.len();
    if hlen < 6 || h[0] != 66 || h[1] != 101 || h[2] != 97 || h[3] != 114 || h[4] != 101 || h[5]
        != 114 {
        return Err(Error::InvalidAuthHeaderError);
    }
    let rest = match bytes_to_str(vstd::slice::slice_subrange(h.as_slice(), 6, hlen)) {
        Some(s) => s,
        None => {
            return Err(Error::InvalidAuthHeaderError);
        },
    };
    let n = rest.unicode_len();
    let mut start: usize = 0;
    proof {
        assert(rest@.subrange(0, n as int) =~= rest@);
    }
    while start < n && is_ws_char(rest.get_char(start))
        invariant
            start <= n,
            n == rest@.len(),
            trim_start_ws(rest@) == trim_start_ws(rest@.subrange(start as int, n as int)),
        decreases n - start,
    {
        proof {
            let s = rest@.subrange(start as int, n as int);
            assert(s[0] == rest@[start as int]);
            assert(s.drop_first() =~= rest@.subrange(start as int + 1, n as int));
            assert(trim_start_ws(s) == trim_start_ws(s.drop_first()));
        }
        start = start + 1;
    }
    proof {
        let s = rest@.subrange(start as int, n as int);
        if start < n {
            assert(s[0] == rest@[start as int]);
            assert(!spec_is_ws_char(s[0]));
        }
        assert(trim_start_ws(s) == s);
        assert(trim_start_ws(rest@) == rest@.subrange(start as int, n as int));
    }
    let mut end: usize = n;
    while end > start && is_ws_char(rest.get_char(end - 1))
        invariant
            start <= end <= n,
            n == rest@.len(),
            trim_end_ws(rest@.subrange(start as int, n as int)) == trim_end_ws(
                rest@.subrange(start as int, end as int),
            ),
        decreases end,
    {
        proof {
            let s = rest@.subrange(start as int, end as int);
            assert(s.last() == rest@[end - 1]);
            assert(s.drop_last() =~= rest@.subrange(start as int, end as int - 1));
            assert(trim_end_ws(s) == trim_end_ws(s.drop_last()));
        }
        end = end - 1;
    }
    proof {
        let s = rest@.subrange(start as int, end as int);
        if end > start {
            assert(s.last() == rest@[end - 1]);
            assert(!spec_is_ws_char(s.last()));
        }
        assert(trim_end_ws(s) == s);
        assert(token_part(h@) == rest@.subrange(start as int, end as int));
    }
    let token = rest.substring_char(start, end);
    Ok(token.to_owned())
}

/// What authorization yields for a required role, a header value and a
/// time: the subject on success, or the error.
pub open spec fn spec_authorize(
    key: Seq<u8>,
    required: Role,
    header: Option<Seq<u8>>,
    now: u64,
) -> Result<Seq<char>, Error> {
    match header {
        None => Err(Error::NoAuthHeaderError),
        Some(h) => if !has_bearer_prefix(h) || !suffix_valid_utf8(h) {
            Err(Error::InvalidAuthHeaderError)
        } else {
            match spec_verify_outcome(key, token_part(h), now) {
                None => Err(Error::JWTTokenError),
                Some(c) => if spec_satisfies(c.2, required) {
                    Ok(c.0)
                } else {
                    Err(Error::NoPermissionError)
                },
            }
        },
    }
}

/// The authorization gate for one request: extracts the bearer token
/// from the header, verifies it through the codec, checks that the
/// embedded role satisfies `required`, and yields the authenticated
/// subject, or the typed rejection.
pub fn authorize(
    codec: &TokenCodec,
    required: Role,
    auth_header: Option<&Vec<u8>>,
    now: u64,
) -> (r: Result<String, Error>)
    ensures
        match r {
            Ok(s) => spec_authorize(codec.spec_key(), required, header_view(auth_header), now)
                == Ok::<Seq<char>, Error>(s@),
            Err(e) => spec_authorize(codec.spec_key(), required, header_view(auth_header), now)
                == Err::<Seq<char>, Error>(e),
        },
{
    let token = match jwt_from_headers(auth_header) {
        Ok(t) => t,
        Err(e) => {
            return Err(e);
        },
    };
    let claims = match codec.verify(token.as_str(), now) {
        Ok(c) => c,
        Err(e) => {
            return Err(e);
        },
    };
    if claims.role.satisfies(required) {
        Ok(claims.sub)
    } else {
        Err(Error::NoPermissionError)
    }
}

/// Role enforcement: for a well-formed Bearer header whose token decodes
/// to unexpired claims, authorization succeeds with the token's subject
/// exactly when the embedded role suffices, and otherwise fails with the
/// privilege error.
pub proof fn lemma_gate_role_enforcement(
    key: Seq<u8>,
    required: Role,
    header: Seq<u8>,
    now: u64,
    sub: Seq<char>,
    exp: u64,
    role: Role,
)
    requires
        has_bearer_prefix(header),
        suffix_valid_utf8(header),
        claims_of(key, token_part(header)) == Some((sub, exp, spec_role_name(role))),
        now < exp,
    ensures
        spec_satisfies(role, required) ==> spec_authorize(key, required, Some(header), now)
            == Ok::<Seq<char>, Error>(sub),
        !spec_satisfies(role, required) ==> spec_authorize(key, required, Some(header), now)
            == Err::<Seq<char>, Error>(Error::NoPermissionError),
{
    crate::token::lemma_verify_decodable(key, token_part(header), sub, exp, role, now);
}

} // verus!
