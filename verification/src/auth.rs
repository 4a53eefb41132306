use vstd::prelude::*;
use vstd::string::StrSliceExecFns;
use vstd::string::StringExecFns;

verus! {

broadcast use vstd::string::group_string_axioms;

/// `user` is the text of `auth` that comes before its first `&`, or all of it
/// when it has none.
pub open spec fn is_username_of(user: Seq<char>, auth: Seq<char>) -> bool {
    &&& user.len() <= auth.len()
    &&& user == auth.take(user.len() as int)
    &&& !user.contains('&')
    &&& (user.len() == auth.len() || auth[user.len() as int] == '&')
}

/// Extracts the user name from a Hacker News `user` cookie value, which has the
/// form `name&token`: the part before the first `&`, or the whole value.
pub fn username_from_auth(hn_auth: &str) -> (res: Option<String>)
    ensures
        res is Some,
        res matches Some(user) ==> is_username_of(user@, hn_auth@),
        res matches Some(user) ==> {
            &&& user@.len() <= hn_auth@.len()
            &&& forall|i: int|
                0 <= i < user@.len() ==> user@[i] == hn_auth@[i] && user@[i] != '&'
            &&& user@.len() < hn_auth@.len() ==> hn_auth@[user@.len() as int] == '&'
        },
{
    let len: usize = hn_auth.unicode_len();
    let mut end: usize = 0;
    let mut found: bool = false;
    for c in it: hn_auth.chars()
        invariant
            len == hn_auth@.len(),
            it.seq() == hn_auth@,
            end <= it.index(),
            !found ==> end == it.index(),
            found ==> end < hn_auth@.len() && hn_auth@[end as int] == '&',
            forall|j: int| 0 <= j < end ==> hn_auth@[j] != '&',
    {
        if !found {
            if c == '&' {
                found = true;
            } else {
                end = end + 1;
            }
        }
    }
    let user = String::from_str(hn_auth.substring_char(0, end));
    proof {
        let u = user@;
        assert(u == hn_auth@.subrange(0, end as int));
        assert(!u.contains('&')) by {
            if u.contains('&') {
                let k = choose|k: int| 0 <= k < u.len() && u[k] == '&';
                assert(hn_auth@[k] == '&');
            }
        }
    }
    proof {
        lemma_username_shape(user@, hn_auth@);
    }
    Some(user)
}


/// The domain the session cookie is sent to.
pub const HN_DOMAIN: &'static str = "news.ycombinator.com";

/// The `Set-Cookie` text that carries the session of `auth` to the site.
pub open spec fn auth_cookie(auth: Seq<char>) -> Seq<char> {
    "user="@ + auth + "; Domain="@ + HN_DOMAIN@
}

/// The cookie carries the whole session value, token included, between
/// `user=` and `; Domain=news.ycombinator.com`.
pub proof fn lemma_auth_cookie(auth: Seq<char>)
    ensures
        auth_cookie(auth) == "user="@ + auth + "; Domain=news.ycombinator.com"@,
        auth_cookie(auth).len() == auth.len() + 34,
        auth_cookie(auth).subrange(5, 5 + auth.len() as int) == auth,
{
    reveal_strlit("user=");
    reveal_strlit("; Domain=");
    reveal_strlit("news.ycombinator.com");
    reveal_strlit("; Domain=news.ycombinator.com");
    assert("; Domain="@ + HN_DOMAIN@ =~= "; Domain=news.ycombinator.com"@);
    assert(auth_cookie(auth) =~= "user="@ + auth + "; Domain=news.ycombinator.com"@);
    assert(auth_cookie(auth).subrange(5, 5 + auth.len() as int) =~= auth);
}

/// There is only one user name in a session value: any two texts that both
/// are the part before its first `&` are equal.
pub proof fn lemma_username_unique(u1: Seq<char>, u2: Seq<char>, auth: Seq<char>)
    requires
        is_username_of(u1, auth),
        is_username_of(u2, auth),
    ensures
        u1 == u2,
{
    if u1.len() < u2.len() {
        assert(u2[u1.len() as int] == auth[u1.len() as int]);
        assert(u2.contains('&'));
    } else if u2.len() < u1.len() {
        assert(u1[u2.len() as int] == auth[u2.len() as int]);
        assert(u1.contains('&'));
    }
    assert(u1 =~= u2);
}

/// The user name is a prefix of the session value that holds no `&` and that
/// is followed by `&` or by the end of the value; a value without `&` is all
/// user name.
pub proof fn lemma_username_shape(u: Seq<char>, auth: Seq<char>)
    requires
        is_username_of(u, auth),
    ensures
        u.len() <= auth.len(),
        forall|i: int| 0 <= i < u.len() ==> u[i] == auth[i] && u[i] != '&',
        u.len() < auth.len() ==> auth[u.len() as int] == '&',
        !auth.contains('&') ==> u == auth,
{
    if !auth.contains('&') {
        if u.len() < auth.len() {
            assert(auth.contains('&')) by {
                assert(auth[u.len() as int] == '&');
            }
        }
        assert(u =~= auth);
    }
    assert forall|i: int| 0 <= i < u.len() implies u[i] == auth[i] && u[i] != '&' by {
        assert(u[i] == auth.take(u.len() as int)[i]);
        if u[i] == '&' {
            assert(u.contains('&'));
        }
    }
}

/// Builds the cookie that logs the HTTP client in: `user={auth}; Domain=news.ycombinator.com`.
pub fn hn_auth_cookie(hn_auth: &str) -> (cookie: String)
    ensures
        cookie@ == auth_cookie(hn_auth@),
        cookie@ == "user="@ + hn_auth@ + "; Domain=news.ycombinator.com"@,
{
    proof {
        lemma_auth_cookie(hn_auth@);
    }
    let mut cookie = String::from_str("user=");
    cookie.append(hn_auth);
    cookie.append("; Domain=");
    cookie.append(HN_DOMAIN);
    cookie
}

} // verus!
