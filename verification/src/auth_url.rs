//! The authorization URL builder: the consent-page URL that the user's
//! browser is sent to at the start of the authorization-code flow.
//!
//! Pure: no network, no state. The redirect URI and the space-joined
//! scope list are percent-encoded into the query string.

use vstd::prelude::*;

use crate::encoding::percent_encode_str;
use crate::encoding::spec_percent_encoded;
use crate::errors::FacadeError;

verus! {

/// The requested scopes, joined by single spaces.
pub open spec fn spec_join_scopes(scopes: Seq<Seq<char>>) -> Seq<char>
    decreases scopes.len(),
{
    if scopes.len() == 0 {
        Seq::empty()
    } else if scopes.len() == 1 {
        scopes[0]
    } else {
        scopes[0] + seq![' '] + spec_join_scopes(scopes.drop_first())
    }
}

/// Joining a list extended by one scope appends a space and the scope,
/// unless the list was empty.
pub proof fn lemma_join_scopes_push(s: Seq<Seq<char>>, x: Seq<char>)
    ensures
        spec_join_scopes(s.push(x)) == if s.len() == 0 {
            x
        } else {
            spec_join_scopes(s) + seq![' '] + x
        },
    decreases s.len(),
{
    if s.len() == 0 {
        assert(s.push(x)[0] == x);
        assert(spec_join_scopes(s.push(x)) == x);
    } else if s.len() == 1 {
        assert(s.push(x)[0] == s[0]);
        assert(s.push(x).drop_first() =~= seq![x]);
        assert(spec_join_scopes(seq![x]) == x);
    } else {
        assert(s.push(x)[0] == s[0]);
        assert(s.push(x).drop_first() =~= s.drop_first().push(x));
        lemma_join_scopes_push(s.drop_first(), x);
        assert((s[0] + seq![' '] + spec_join_scopes(s.drop_first())) + seq![' '] + x =~= s[0]
            + seq![' '] + (spec_join_scopes(s.drop_first()) + seq![' '] + x));
    }
}

/// Join the scopes with single spaces.
pub fn join_scopes(scopes: &Vec<String>) -> (r: String)
    ensures
        r@ == spec_join_scopes(scopes.deep_view()),
{
    let mut out = String::new();
    let mut i: usize = 0;
    while i < scopes.len()
        invariant
            i <= scopes@.len(),
            out@ == spec_join_scopes(scopes.deep_view().take(i as int)),
        decreases scopes@.len() - i,
    {
        if i > 0 {
            out.append(" ");
        }
        out.append(scopes[i].as_str());
        proof {
            reveal_strlit(" ");
            assert(" "@ =~= seq![' ']);
            let pre = scopes.deep_view().take(i as int);
            lemma_join_scopes_push(pre, scopes.deep_view()[i as int]);
            assert(scopes.deep_view()[i as int] == scopes@[i as int]@);
            assert(scopes.deep_view().take(i as int + 1) =~= pre.push(
                scopes.deep_view()[i as int],
            ));
            if i == 0 {
                assert(out@ =~= scopes@[0]@);
            } else {
                assert(out@ =~= spec_join_scopes(pre) + seq![' '] + scopes@[i as int]@);
            }
        }
        i += 1;
    }
    proof {
        assert(scopes.deep_view().take(scopes@.len() as int) =~= scopes.deep_view());
    }
    out
}

/// The consent-page URL for the given client identity, redirect target
/// and scopes.
pub open spec fn spec_authorize_url(
    client_id: Seq<char>,
    redirect_uri: Seq<char>,
    scopes: Seq<Seq<char>>,
) -> Seq<char> {
    "https://accounts.spotify.com/authorize?client_id="@ + spec_percent_encoded(client_id)
        + "&response_type=code&redirect_uri="@ + spec_percent_encoded(redirect_uri) + "&scope="@
        + spec_percent_encoded(spec_join_scopes(scopes))
}

/// Build the consent-page URL: query parameters `client_id`,
/// `response_type=code`, `redirect_uri` and the space-joined `scope`,
/// with the redirect URI and the scope string percent-encoded. Fails only
/// when the client identifier is absent from configuration.
pub fn build_authorization_url(client_id: &str, redirect_uri: &str, scopes: &Vec<String>) -> (r:
    Result<String, FacadeError>)
    ensures
        client_id@.len() == 0 <==> r is Err,
        r matches Err(e) ==> e is ConfigurationError,
        r matches Ok(url) ==> url@ == spec_authorize_url(
            client_id@,
            redirect_uri@,
            scopes.deep_view(),
        ),
{
    if client_id.unicode_len() == 0 {
        return Err(FacadeError::ConfigurationError);
    }
    let mut url = String::from_str("https://accounts.spotify.com/authorize?client_id=");
    let enc_id = percent_encode_str(client_id);
    url.append(enc_id.as_str());
    url.append("&response_type=code&redirect_uri=");
    let enc_redirect = percent_encode_str(redirect_uri);
    url.append(enc_redirect.as_str());
    url.append("&scope=");
    let joined = join_scopes(scopes);
    let enc_scope = percent_encode_str(joined.as_str());
    url.append(enc_scope.as_str());
    proof {
        assert(url@ =~= spec_authorize_url(client_id@, redirect_uri@, scopes.deep_view()));
    }
    Ok(url)
}

} // verus!
