//! The attributes of the session cookie. Frontend and backend live on
//! different origins in production, so the cookie must be allowed across
//! sites there, while a local frontend gets a cookie that works over plain
//! HTTP.

use vstd::prelude::*;
use vstd::string::*;

use crate::text::{contains, has_substring, replace, replaced};

verus! {

/// Whether a request that names `referer` as its referer comes from a local
/// frontend.
pub open spec fn is_local(referer: Option<String>) -> bool {
    match referer {
        Some(r) => has_substring(r@, "localhost"@) || has_substring(r@, "127.0.0.1"@),
        None => false,
    }
}

/// Decides `is_local`.
pub fn is_localhost(referer: &Option<String>) -> (r: bool)
    ensures
        r == is_local(*referer),
{
    match referer {
        Some(r) => contains(r.as_str(), "localhost") || contains(r.as_str(), "127.0.0.1"),
        None => false,
    }
}

/// `cookie` without any `Secure` and without `SameSite=None` or
/// `SameSite=Lax`, whether written with a space after the semicolon or
/// without.
pub open spec fn stripped(cookie: Seq<char>) -> Seq<char> {
    let e = Seq::<char>::empty();
    replaced(
        replaced(
            replaced(
                replaced(
                    replaced(replaced(cookie, "; Secure"@, e), ";Secure"@, e),
                    "; SameSite=None"@,
                    e,
                ),
                ";SameSite=None"@,
                e,
            ),
            "; SameSite=Lax"@,
            e,
        ),
        ";SameSite=Lax"@,
        e,
    )
}

/// A cookie as it leaves the backend. Only the session cookie is touched:
/// its attributes for security and for sites are replaced by `SameSite=Lax`
/// for a local frontend, and by `SameSite=None; Secure; Partitioned` for any
/// other.
pub open spec fn rewritten(cookie: Seq<char>, local: bool) -> Seq<char> {
    if has_substring(cookie, "aegis_session"@) {
        if local {
            stripped(cookie) + "; SameSite=Lax"@
        } else {
            stripped(cookie) + "; SameSite=None; Secure; Partitioned"@
        }
    } else {
        cookie
    }
}

/// Rewrites one cookie.
pub fn rewrite_cookie(cookie: &str, local: bool) -> (r: String)
    ensures
        r@ == rewritten(cookie@, local),
{
    if !contains(cookie, "aegis_session") {
        return String::from_str(cookie);
    }
    let a = replace(cookie, "; Secure", "");
    let b = replace(a.as_str(), ";Secure", "");
    let c = replace(b.as_str(), "; SameSite=None", "");
    let d = replace(c.as_str(), ";SameSite=None", "");
    let e = replace(d.as_str(), "; SameSite=Lax", "");
    let mut f = replace(e.as_str(), ";SameSite=Lax", "");
    proof {
        reveal_strlit("");
        assert(""@ =~= Seq::<char>::empty());
    }
    if local {
        f.append("; SameSite=Lax");
    } else {
        f.append("; SameSite=None; Secure; Partitioned");
    }
    f
}

/// Rewrites the cookies that an answer sets, in their order, for a request
/// with the referer `referer`.
pub fn add_partitioned_attribute(referer: &Option<String>, cookies: &Vec<String>) -> (r: Vec<
    String,
>)
    ensures
        r@.len() == cookies@.len(),
        forall|i: int|
            0 <= i < cookies@.len() ==> (#[trigger] r@[i])@ == rewritten(
                cookies@[i]@,
                is_local(*referer),
            ),
{
    let local = is_localhost(referer);
    let mut out: Vec<String> = Vec::new();
    let mut i: usize = 0;
    while i < cookies.len()
        invariant
            i <= cookies.len(),
            out@.len() == i,
            local == is_local(*referer),
            forall|j: int| 0 <= j < i ==> (#[trigger] out@[j])@ == rewritten(cookies@[j]@, local),
        decreases cookies.len() - i,
    {
        out.push(rewrite_cookie(cookies[i].as_str(), local));
        i = i + 1;
    }
    out
}

} // verus!
