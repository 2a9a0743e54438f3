//! The middleware standing before every protected route. It validates the
//! presented session token and either hands the handler a typed identity or
//! rejects with `Unauthenticated`; handlers downstream may assume the
//! identity is present and query it without re-checking.

use vstd::prelude::*;
use vstd::string::StrSliceExecFns;

use crate::errors::AuthError;
use crate::session::validate_session;
use crate::store::{
    lemma_user_at_id, session_at, session_live, user_at_id, user_id_present, AuthStore,
};

verus! {

/// `lo..hi` spans exactly one cookie of a `Cookie` header: a maximal run
/// free of the `;` separator.
pub open spec fn cookie_segment(h: Seq<char>, lo: int, hi: int) -> bool {
    &&& 0 <= lo <= hi <= h.len()
    &&& (lo == 0 || h[lo - 1] == ';')
    &&& (hi == h.len() || h[hi] == ';')
    &&& forall|k: int| lo <= k < hi ==> h[k] != ';'
}

/// Within the segment `lo..hi`, the pair starts at `s`: only spaces sit
/// before it, then the cookie's name, one `=`, and the value running to the
/// end of the segment.
pub open spec fn cookie_pair_start(
    h: Seq<char>,
    lo: int,
    hi: int,
    name: Seq<char>,
    s: int,
) -> bool {
    &&& lo <= s
    &&& s + name.len() < hi <= h.len()
    &&& (forall|k: int| lo <= k < s ==> h[k] == ' ')
    &&& h.subrange(s, s + name.len()) == name
    &&& h[s + name.len()] == '='
}

/// The segment `lo..hi` carries a cookie of this name.
pub open spec fn cookie_named_at(h: Seq<char>, lo: int, hi: int, name: Seq<char>) -> bool {
    exists|s: int| cookie_pair_start(h, lo, hi, name, s)
}

/// The value of the cookie the segment carries, meaningful when
/// `cookie_named_at` holds.
pub open spec fn cookie_value_at(h: Seq<char>, lo: int, hi: int, name: Seq<char>) -> Seq<char>
    recommends
        cookie_named_at(h, lo, hi, name),
{
    let s = choose|s: int| cookie_pair_start(h, lo, hi, name, s);
    h.subrange(s + name.len() + 1, hi)
}

/// For a name that does not begin with a space, the pair can start at only
/// one place in a segment: the first position after the leading spaces.
proof fn lemma_pair_start_position(
    h: Seq<char>,
    lo: int,
    hi: int,
    name: Seq<char>,
    s0: int,
    s: int,
)
    requires
        name.len() > 0,
        name[0] != ' ',
        0 <= lo <= s0 <= hi <= h.len(),
        forall|k: int| lo <= k < s0 ==> h[k] == ' ',
        s0 < hi ==> h[s0] != ' ',
        cookie_pair_start(h, lo, hi, name, s),
    ensures
        s == s0,
{
    assert(h.subrange(s, s + name.len())[0] == h[s]);
    if s < s0 {
        assert(h[s] == ' ');
    } else if s0 < s {
        assert(h[s0] == ' ');
    }
}

/// Two overlapping cookie segments are the same segment: the separators pin
/// both ends.
proof fn lemma_segment_determined(h: Seq<char>, lo: int, hi: int, l2: int, h2: int)
    requires
        cookie_segment(h, lo, hi),
        cookie_segment(h, l2, h2),
        lo <= l2 <= hi,
    ensures
        l2 == lo,
        h2 == hi,
{
    if lo < l2 {
        assert(h[l2 - 1] != ';');
    }
    if h2 < hi {
        assert(h[h2] != ';');
    }
    if hi < h2 {
        assert(h[hi] != ';');
    }
}

/// Extracts the session token from a raw `Cookie` header: the value of a
/// `sid` cookie. Cookies are separated by `;`, spaces after a separator are
/// skipped, the name directly precedes `=`, and the value runs to the end of
/// its segment. `None` comes back exactly when no segment carries a `sid`
/// cookie.
pub fn session_token_from_cookie_header(header: &str) -> (r: Option<String>)
    ensures
        r matches Some(v) ==> exists|lo: int, hi: int|
            #![auto]
            cookie_segment(header@, lo, hi) && cookie_named_at(header@, lo, hi, "sid"@)
                && v@ == cookie_value_at(header@, lo, hi, "sid"@),
        r is None ==> forall|lo: int, hi: int|
            cookie_segment(header@, lo, hi) ==> !cookie_named_at(header@, lo, hi, "sid"@),
{
    let n = header.unicode_len();
    let mut lo: usize = 0;
    loop
        invariant_except_break
            n == header@.len(),
            lo <= n,
            lo == 0 || header@[lo as int - 1] == ';',
            forall|l2: int, h2: int|
                cookie_segment(header@, l2, h2) && l2 < lo ==> !cookie_named_at(
                    header@,
                    l2,
                    h2,
                    "sid"@,
                ),
        ensures
            forall|l2: int, h2: int|
                cookie_segment(header@, l2, h2) ==> !cookie_named_at(header@, l2, h2, "sid"@),
        decreases n - lo,
    {
        let mut hi: usize = lo;
        while hi < n && header.get_char(hi) != ';'
            invariant
                n == header@.len(),
                lo <= hi <= n,
                forall|k: int| lo <= k < hi ==> header@[k] != ';',
            decreases n - hi,
        {
            hi = hi + 1;
        }
        let mut s0: usize = lo;
        while s0 < hi && header.get_char(s0) == ' '
            invariant
                n == header@.len(),
                lo <= s0 <= hi <= n,
                forall|k: int| lo <= k < s0 ==> header@[k] == ' ',
            decreases hi - s0,
        {
            s0 = s0 + 1;
        }
        let matched = hi - s0 >= 4 && header.get_char(s0) == 's' && header.get_char(s0 + 1) == 'i'
            && header.get_char(s0 + 2) == 'd' && header.get_char(s0 + 3) == '=';
        if matched {
            let value = header.substring_char(s0 + 4, hi).to_owned();
            proof {
                reveal_strlit("sid");
                assert(header@.subrange(s0 as int, s0 as int + 3) =~= "sid"@);
                assert(cookie_segment(header@, lo as int, hi as int));
                assert(cookie_pair_start(header@, lo as int, hi as int, "sid"@, s0 as int));
                assert(cookie_named_at(header@, lo as int, hi as int, "sid"@));
                let s = choose|s: int|
                    cookie_pair_start(header@, lo as int, hi as int, "sid"@, s);
                lemma_pair_start_position(header@, lo as int, hi as int, "sid"@, s0 as int, s);
                assert(value@ == cookie_value_at(header@, lo as int, hi as int, "sid"@));
            }
            return Some(value);
        }
        proof {
            reveal_strlit("sid");
            assert forall|s: int| !cookie_pair_start(header@, lo as int, hi as int, "sid"@, s) by {
                if cookie_pair_start(header@, lo as int, hi as int, "sid"@, s) {
                    lemma_pair_start_position(header@, lo as int, hi as int, "sid"@, s0 as int, s);
                    assert(header@.subrange(s, s + 3)[0] == header@[s]);
                    assert(header@.subrange(s, s + 3)[1] == header@[s + 1]);
                    assert(header@.subrange(s, s + 3)[2] == header@[s + 2]);
                }
            }
            assert(!cookie_named_at(header@, lo as int, hi as int, "sid"@));
        }
        if hi == n {
            proof {
                assert forall|l2: int, h2: int|
                    cookie_segment(header@, l2, h2) implies !cookie_named_at(
                    header@,
                    l2,
                    h2,
                    "sid"@,
                ) by {
                    if lo <= l2 {
                        lemma_segment_determined(header@, lo as int, hi as int, l2, h2);
                    }
                }
            }
            break ;
        }
        proof {
            assert forall|l2: int, h2: int|
                cookie_segment(header@, l2, h2) && l2 < hi + 1 implies !cookie_named_at(
                header@,
                l2,
                h2,
                "sid"@,
            ) by {
                if lo <= l2 {
                    lemma_segment_determined(header@, lo as int, hi as int, l2, h2);
                }
            }
        }
        lo = hi + 1;
    }
    None
}

/// The authenticated identity the middleware attaches to a request.
#[derive(Clone, Debug)]
pub struct AuthUser {
    pub id: String,
}

/// The answer to the identity query: what an authenticated caller may learn
/// about itself.
#[derive(Debug)]
pub struct Identity {
    pub email: String,
    pub display_name: Option<String>,
}

/// The access check: succeeds exactly when a token was presented and names a
/// currently live session, and then carries that session's user. A missing,
/// unknown, revoked or expired token is the same `Unauthenticated`.
pub fn authenticate(store: &AuthStore, token: Option<&String>, now: u64) -> (r: Result<
    AuthUser,
    AuthError,
>)
    requires
        store.wf(),
    ensures
        r is Ok <==> token is Some && session_live(store.sessions@, token->Some_0@, now),
        r matches Ok(u) ==> u.id@ == session_at(store.sessions@, token->Some_0@).user_id@,
        r is Err ==> r == Err::<AuthUser, AuthError>(AuthError::Unauthenticated),
{
    match token {
        None => Err(AuthError::Unauthenticated),
        Some(t) => match validate_session(store, t, now) {
            Some(user_id) => Ok(AuthUser { id: user_id }),
            None => Err(AuthError::Unauthenticated),
        },
    }
}

/// The boolean form of the access check, for the session-status endpoint:
/// whether the presented cookie names a currently live session.
pub fn session_active(store: &AuthStore, token: Option<&String>, now: u64) -> (r: bool)
    requires
        store.wf(),
    ensures
        r <==> token is Some && session_live(store.sessions@, token->Some_0@, now),
{
    match token {
        None => false,
        Some(t) => validate_session(store, t, now).is_some(),
    }
}

/// Identity query for an authenticated user: the email and display name of
/// the named record. Since every session points at an existing user, the
/// lookup is total for identities the access check produced; a dangling id
/// is the internal `StoreFailure`.
pub fn identity(store: &AuthStore, user: &AuthUser) -> (r: Result<Identity, AuthError>)
    requires
        store.wf(),
    ensures
        r is Ok <==> user_id_present(store.users@, user.id@),
        r matches Ok(me) ==> me.email@ == user_at_id(store.users@, user.id@).email@
            && me.display_name == user_at_id(store.users@, user.id@).display_name,
        r is Err ==> r == Err::<Identity, AuthError>(AuthError::StoreFailure),
{
    match store.find_user_by_id(&user.id) {
        Some(i) => {
            proof {
                lemma_user_at_id(store.users@, user.id@, i as int);
            }
            let row = &store.users[i];
            Ok(Identity {
                email: row.email.clone(),
                display_name: match &row.display_name {
                    Some(n) => Some(n.clone()),
                    None => None,
                },
            })
        },
        None => Err(AuthError::StoreFailure),
    }
}

} // verus!
