//! Bearer-token authorization, the first stage of the pipeline.

use crate::config::AppConfig;
use crate::reply::Reply;
use crate::text::has_prefix;
use crate::text::same_text;
use vstd::prelude::*;
use vstd::string::StrSliceExecFns;

verus! {

/// The value of an Authorization header that presents `token`.
pub open spec fn bearer_header(token: Seq<char>) -> Seq<char> {
    "Bearer "@ + token
}

/// A request may pass when its Authorization header is present
/// and presents exactly the secret.
pub open spec fn admits(authorization: Option<Seq<char>>, secret: Seq<char>) -> bool {
    match authorization {
        Some(header) => header == bearer_header(secret),
        None => false,
    }
}

/// Reads the token out of an Authorization header of the scheme `Bearer`.
/// A header of any other shape presents no token.
pub fn bearer_token<'a>(header: &'a str) -> (token: Option<&'a str>)
    ensures
        match token {
            Some(token) => header@ == bearer_header(token@),
            None => !has_prefix(header@, "Bearer "@),
        },
{
    proof {
        reveal_strlit("Bearer ");
    }
    let n = header.unicode_len();
    if n < 7 {
        return None;
    }
    let scheme = header.substring_char(0, 7);
    if same_text(scheme, "Bearer ") {
        let token = header.substring_char(7, n);
        assert(header@ =~= "Bearer "@ + token@);
        Some(token)
    } else {
        None
    }
}

/// Decides whether a request may pass. It may when its Authorization header
/// reads `Bearer ` followed by the configured secret, and only then: a
/// missing header, another scheme and any other token are turned away as
/// unauthorized.
pub fn auth(authorization: Option<&str>, config: &AppConfig) -> (verdict: Result<(), Reply>)
    ensures
        verdict == (if admits(authorization.deep_view(), config.api_token@) {
            Ok::<(), Reply>(())
        } else {
            Err::<(), Reply>(Reply::Unauthorized)
        }),
{
    let header = match authorization {
        Some(header) => header,
        None => { return Err(Reply::Unauthorized); },
    };
    match bearer_token(header) {
        Some(token) => {
            if same_text(token, config.api_token.as_str()) {
                Ok(())
            } else {
                proof {
                    lemma_bearer_header_injective(token@, config.api_token@);
                }
                Err(Reply::Unauthorized)
            }
        },
        None => {
            proof {
                lemma_bearer_header_has_scheme(config.api_token@);
            }
            Err(Reply::Unauthorized)
        },
    }
}

/// A header that presents a token begins with the scheme.
pub proof fn lemma_bearer_header_has_scheme(token: Seq<char>)
    ensures
        has_prefix(bearer_header(token), "Bearer "@),
{
    assert(bearer_header(token).subrange(0, "Bearer "@.len() as int) =~= "Bearer "@);
}

/// Two headers are the same only if they present the same token.
pub proof fn lemma_bearer_header_injective(a: Seq<char>, b: Seq<char>)
    ensures
        bearer_header(a) == bearer_header(b) <==> a == b,
{
    let n = "Bearer "@.len() as int;
    assert(bearer_header(a).subrange(n, bearer_header(a).len() as int) =~= a);
    assert(bearer_header(b).subrange(n, bearer_header(b).len() as int) =~= b);
}

/// Of all the tokens that a header can present, the configured secret is
/// admitted and no other.
pub proof fn lemma_only_the_secret_is_admitted(token: Seq<char>, secret: Seq<char>)
    ensures
        admits(Some(bearer_header(token)), secret) <==> token == secret,
{
    lemma_bearer_header_injective(token, secret);
}

/// A request without a header, or with one of another scheme, is not admitted,
/// whatever the secret is.
pub proof fn lemma_no_bearer_no_entry(authorization: Option<Seq<char>>, secret: Seq<char>)
    requires
        match authorization {
            Some(header) => !has_prefix(header, "Bearer "@),
            None => true,
        },
    ensures
        !admits(authorization, secret),
{
    lemma_bearer_header_has_scheme(secret);
}

} // verus!
