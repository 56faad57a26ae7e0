//! Decisions of the HTTP clients of Keycloak, MAS and Synapse that do not
//! depend on the network: which endpoint finishes a session, how session
//! lists combine, where a created user's id is found, which state events
//! name a space's children, and how long an admin token is trusted.

use vstd::prelude::*;

use crate::error::AppError;
use crate::models::mas::MasSession;
use crate::text::{cat3, slice_chars, str_eq};

verus! {

/// The MAS admin path that finishes a session of the given type.
pub open spec fn finish_path(session_id: Seq<char>, session_type: Seq<char>) -> Option<Seq<char>> {
    if session_type == "compat"@ {
        Some("/api/admin/v1/compat-sessions/"@ + session_id + "/finish"@)
    } else if session_type == "oauth2"@ {
        Some("/api/admin/v1/oauth2-sessions/"@ + session_id + "/finish"@)
    } else {
        None
    }
}

/// The MAS admin path that finishes session `session_id`; a type other than
/// `compat` or `oauth2` is rejected.
pub fn mas_finish_path(session_id: &str, session_type: &str) -> (res: Result<String, AppError>)
    ensures
        match finish_path(session_id@, session_type@) {
            Some(p) => res matches Ok(s) && s@ == p,
            None => res matches Err(AppError::Validation(m)) && m@ == "Unknown MAS session type: "@
                + session_type@,
        },
{
    proof {
        reveal_strlit("compat");
        reveal_strlit("oauth2");
        assert("compat"@ != "oauth2"@) by {
            assert("compat"@[0] != "oauth2"@[0]);
        }
    }
    if str_eq(session_type, "compat") {
        Ok(cat3("/api/admin/v1/compat-sessions/", session_id, "/finish"))
    } else if str_eq(session_type, "oauth2") {
        Ok(cat3("/api/admin/v1/oauth2-sessions/", session_id, "/finish"))
    } else {
        Err(AppError::Validation(crate::text::cat("Unknown MAS session type: ", session_type)))
    }
}

/// The sessions of a listing, none when it failed.
pub open spec fn listed(r: Result<Vec<MasSession>, AppError>) -> Seq<MasSession> {
    match r {
        Ok(v) => v@,
        Err(_) => Seq::empty(),
    }
}

/// The active sessions of a MAS user: the compat sessions followed by the
/// OAuth2 sessions; a listing that failed contributes none.
pub fn merge_sessions(
    compat: Result<Vec<MasSession>, AppError>,
    oauth2: Result<Vec<MasSession>, AppError>,
) -> (res: Vec<MasSession>)
    ensures
        res@ == listed(compat) + listed(oauth2),
{
    let mut out = match compat {
        Ok(v) => v,
        Err(_) => Vec::new(),
    };
    let mut more = match oauth2 {
        Ok(v) => v,
        Err(_) => Vec::new(),
    };
    out.append(&mut more);
    out
}

/// Whether `i` is the position of the last `/` of `s`.
pub open spec fn is_last_slash(s: Seq<char>, i: int) -> bool {
    &&& 0 <= i < s.len()
    &&& s[i] == '/'
    &&& forall|j: int| i < j < s.len() ==> s[j] != '/'
}

/// The part of `s` after its last `/`, or all of it without one.
pub open spec fn last_segment(s: Seq<char>) -> Seq<char> {
    if exists|i: int| is_last_slash(s, i) {
        s.skip((choose|i: int| is_last_slash(s, i)) + 1)
    } else {
        s
    }
}

/// The id of a user Keycloak created: the last segment of the `Location`
/// header of its reply, which must be present.
pub fn user_id_from_location(location: Option<&str>) -> (res: Result<String, AppError>)
    ensures
        match location {
            Some(l) => res matches Ok(id) && id@ == last_segment(l@),
            None => res matches Err(AppError::Upstream { service, message }) && service@
                == "keycloak"@ && message@ == "create_user response missing Location header"@,
        },
{
    match location {
        None => Err(
            AppError::Upstream {
                service: String::from_str("keycloak"),
                message: String::from_str("create_user response missing Location header"),
            },
        ),
        Some(l) => {
            let n = l.unicode_len();
            let mut last: Option<usize> = None;
            let mut i: usize = 0;
            while i < n
                invariant
                    n == l@.len(),
                    i <= n,
                    match last {
                        Some(k) => k < i && l@[k as int] == '/' && forall|j: int|
                            k < j < i ==> l@[j] != '/',
                        None => forall|j: int| 0 <= j < i ==> l@[j] != '/',
                    },
                decreases n - i,
            {
                if l.get_char(i) == '/' {
                    last = Some(i);
                }
                i = i + 1;
            }
            match last {
                Some(k) => {
                    assert(is_last_slash(l@, k as int));
                    let ghost c = choose|c: int| is_last_slash(l@, c);
                    assert(c == k);
                    let id = slice_chars(l, k + 1, n);
                    assert(id@ =~= l@.skip(k + 1));
                    Ok(id)
                },
                None => {
                    let id = slice_chars(l, 0, n);
                    assert(id@ =~= l@);
                    Ok(id)
                },
            }
        },
    }
}

/// A state event of a space, as far as its children matter: its type, its
/// state key, and whether its content is a non-empty JSON object.
pub struct SpaceStateEvent {
    pub event_type: String,
    pub state_key: String,
    pub has_content: bool,
}

/// Whether an event names an active child: an `m.space.child` event with a
/// state key and content (empty content means the child was removed).
pub open spec fn names_child(e: SpaceStateEvent) -> bool {
    e.event_type@ == "m.space.child"@ && e.state_key@.len() > 0 && e.has_content
}

/// The children named by state events, in order.
pub open spec fn child_ids(es: Seq<SpaceStateEvent>) -> Seq<String>
    decreases es.len(),
{
    if es.len() == 0 {
        Seq::empty()
    } else {
        let rest = child_ids(es.drop_last());
        if names_child(es.last()) {
            rest.push(es.last().state_key)
        } else {
            rest
        }
    }
}

/// The room ids of a space's active children, from its state events.
pub fn space_child_ids(events: Vec<SpaceStateEvent>) -> (res: Vec<String>)
    ensures
        res@ == child_ids(events@),
{
    let ghost all = events@;
    let n = events.len();
    let mut rest = crate::text::reversed(events);
    let mut out: Vec<String> = Vec::new();
    let mut i: usize = 0;
    while i < n
        invariant
            n == all.len(),
            i <= n,
            rest@.len() == n - i,
            forall|k: int| 0 <= k < n - i ==> #[trigger] rest@[k] == all[n - 1 - k],
            out@ == child_ids(all.take(i as int)),
        decreases n - i,
    {
        let e = rest.pop().unwrap();
        assert(all.take(i + 1).drop_last() =~= all.take(i as int));
        assert(all.take(i + 1).last() == e);
        if str_eq(e.event_type.as_str(), "m.space.child") && e.state_key.as_str().unicode_len() > 0
            && e.has_content {
            out.push(e.state_key);
        }
        i = i + 1;
    }
    assert(all.take(n as int) =~= all);
    out
}

/// How long before its stated expiry an admin token is refreshed.
pub const TOKEN_MARGIN_SECS: u64 = 30;

/// How long an admin token is trusted: its stated lifetime less the margin,
/// never negative.
pub fn token_lifetime_secs(expires_in: u64) -> (res: u64)
    ensures
        res == (if expires_in > TOKEN_MARGIN_SECS {
            expires_in - TOKEN_MARGIN_SECS
        } else {
            0
        }),
{
    if expires_in > TOKEN_MARGIN_SECS {
        expires_in - TOKEN_MARGIN_SECS
    } else {
        0
    }
}

} // verus!
