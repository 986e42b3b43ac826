//! The identity token and what upstream says of the session behind it.

use std::collections::BTreeMap;
use vstd::prelude::*;
use vstd::string::StringExecFns;

use crate::error::GatewayError;

verus! {

/// Upstream's answer to a token exchange.
#[derive(Debug, Clone, PartialEq, Eq)]
pub struct TokenResponse {
    /// The bearer token that authorises calls for a short while.
    pub access_token: String,
    /// For how many seconds upstream declares the token good.
    pub expires_in: u64,
}

/// Upstream's description of the current session.
#[derive(Debug, Clone, PartialEq, Eq)]
pub struct SessionResponse {
    /// When the session ends, in upstream's own notation.
    pub expires: String,
}

/// `jwt::Error`, the reason why a token did not parse. It is carried
/// through unread: every such reason means a malformed credential.
#[verifier::external_type_specification]
#[verifier::external_body]
pub struct ExJwtError(jwt::Error);

/// One claim of an identity token.
#[derive(Debug, Clone, PartialEq, Eq)]
pub struct Claim {
    pub name: String,
    /// The claim's value where it is a JSON string, nothing where it is of
    /// another kind.
    pub text: Option<String>,
}

impl View for Claim {
    type V = (Seq<char>, Option<Seq<char>>);

    open spec fn view(&self) -> (Seq<char>, Option<Seq<char>>) {
        (
            self.name@,
            match self.text {
                Some(text) => Some(text@),
                None => None,
            },
        )
    }
}

/// The views of a list of claims.
pub open spec fn claim_views(claims: Seq<Claim>) -> Seq<(Seq<char>, Option<Seq<char>>)> {
    Seq::new(claims.len(), |i: int| claims[i]@)
}

/// What `jwt` reads out of a token without checking its signature: the
/// claims by name, in the order of their names, or nothing where the token
/// does not parse.
pub uninterp spec fn unverified_claims(token: Seq<char>) -> Option<
    Seq<(Seq<char>, Option<Seq<char>>)>,
>;

/// What an attempt to parse a token came to, as far as the gateway reads
/// it: the claims, or nothing.
pub open spec fn parsed_claims(parsed: Result<Vec<Claim>, jwt::Error>) -> Option<
    Seq<(Seq<char>, Option<Seq<char>>)>,
> {
    match parsed {
        Ok(claims) => Some(claim_views(claims@)),
        Err(_) => None,
    }
}

/// How many full stops a text holds.
pub open spec fn separators(text: Seq<char>) -> nat {
    text.filter(|c: char| c == '.').len()
}

/// `jwt::Token::parse_unverified`, with that crate's own `Header` and with
/// the claims read as a JSON object of arbitrary values. Each claim is
/// handed out under its name, with its value where `serde_json` holds it
/// as a string.
///
/// Not proved, but taken from `jwt`: that the outcome depends on the
/// token's text alone, and that a token which parses consists of exactly
/// three parts between full stops.
#[verifier::external_body]
pub(crate) fn parse_unverified(token: &str) -> (parsed: Result<Vec<Claim>, jwt::Error>)
    ensures
        parsed_claims(parsed) == unverified_claims(token@),
        parsed is Ok ==> separators(token@) == 2,
{
    let token: jwt::Token<jwt::Header, BTreeMap<String, serde_json::Value>, _> =
        jwt::Token::parse_unverified(token)?;
    Ok(
        token.claims().iter().map(
            |(name, value)| Claim { name: name.clone(), text: value.as_str().map(str::to_owned) },
        ).collect(),
    )
}

/// The text of the first claim of the given name, if that claim is there
/// and its value is a string.
pub open spec fn claim_text(
    claims: Seq<(Seq<char>, Option<Seq<char>>)>,
    name: Seq<char>,
) -> Option<Seq<char>>
    decreases claims.len(),
{
    if claims.len() == 0 {
        None
    } else if claims[0].0 == name {
        claims[0].1
    } else {
        claim_text(claims.drop_first(), name)
    }
}

/// A list with no claim of the given name has no text for it.
pub proof fn lemma_absent_claim_has_no_text(
    claims: Seq<(Seq<char>, Option<Seq<char>>)>,
    name: Seq<char>,
)
    requires
        forall|i: int| 0 <= i < claims.len() ==> claims[i].0 != name,
    ensures
        claim_text(claims, name) is None,
    decreases claims.len(),
{
    if claims.len() > 0 {
        lemma_absent_claim_has_no_text(claims.drop_first(), name);
    }
}

/// The text of the first claim of the given name.
pub fn find_text(claims: &Vec<Claim>, name: &str) -> (text: Option<String>)
    ensures
        match text {
            Some(text) => claim_text(claim_views(claims@), name@) == Some(text@),
            None => claim_text(claim_views(claims@), name@) is None,
        },
{
    let wanted = String::from_str(name);
    let ghost all = claim_views(claims@);
    let mut i: usize = 0;
    assert(all.skip(0) =~= all);
    while i < claims.len()
        invariant
            i <= claims.len(),
            all == claim_views(claims@),
            wanted@ == name@,
            claim_text(all, name@) == claim_text(all.skip(i as int), name@),
        decreases claims.len() - i,
    {
        let claim = &claims[i];
        assert(all.skip(i as int)[0] == claim@);
        if claim.name == wanted {
            return match &claim.text {
                Some(text) => Some(text.clone()),
                None => None,
            };
        }
        assert(all.skip(i as int).drop_first() =~= all.skip(i as int + 1));
        i += 1;
    }
    None
}

/// The name of the claim that holds the session's identifier.
pub open spec fn session_claim() -> Seq<char> {
    seq!['s', 'i', 'd']
}

/// The session identifier that a token's claims name. A token that does
/// not parse is malformed, and so is one whose claims hold no text under
/// the session claim's name.
pub open spec fn session_id_of(claims: Option<Seq<(Seq<char>, Option<Seq<char>>)>>) -> Result<
    Seq<char>,
    GatewayError,
> {
    match claims {
        Some(claims) => match claim_text(claims, session_claim()) {
            Some(sid) => Ok(sid),
            None => Err(GatewayError::MalformedCredential),
        },
        None => Err(GatewayError::MalformedCredential),
    }
}

/// The claims of an identity token that the gateway reads.
#[derive(Debug, Clone, PartialEq, Eq)]
pub struct TokenClaims {
    /// The identifier of the session that the token stands for.
    pub sid: String,
}

/// What an attempt to read a token's claims came to, seen as mathematics.
pub open spec fn read_session_id(claims: Result<TokenClaims, GatewayError>) -> Result<
    Seq<char>,
    GatewayError,
> {
    match claims {
        Ok(claims) => Ok(claims.sid@),
        Err(error) => Err(error),
    }
}

/// A token whose claims do not name a session is malformed: no session
/// identifier is made up for it.
pub proof fn lemma_missing_session_claim_is_malformed(claims: Seq<(Seq<char>, Option<Seq<char>>)>)
    requires
        forall|i: int| 0 <= i < claims.len() ==> claims[i].0 != session_claim(),
    ensures
        session_id_of(Some(claims)) == Err::<Seq<char>, GatewayError>(
            GatewayError::MalformedCredential,
        ),
{
    lemma_absent_claim_has_no_text(claims, session_claim());
}

impl TokenClaims {
    /// Reads the session identifier out of a token that has been parsed,
    /// or out of the failure to parse it.
    pub fn from_parsed(parsed: Result<Vec<Claim>, jwt::Error>) -> (claims: Result<
        TokenClaims,
        GatewayError,
    >)
        ensures
            read_session_id(claims) == session_id_of(parsed_claims(parsed)),
            parsed is Err ==> claims == Err::<TokenClaims, GatewayError>(
                GatewayError::MalformedCredential,
            ),
            parsed matches Ok(list) && (forall|i: int|
                0 <= i < list@.len() ==> list@[i].name@ != session_claim()) ==> claims == Err::<
                TokenClaims,
                GatewayError,
            >(GatewayError::MalformedCredential),
    {
        proof {
            reveal_strlit("sid");
            assert("sid"@ =~= session_claim());
        }
        match parsed {
            Ok(list) => {
                proof {
                    if forall|i: int| 0 <= i < list@.len() ==> list@[i].name@ != session_claim() {
                        lemma_missing_session_claim_is_malformed(claim_views(list@));
                    }
                }
                match find_text(&list, "sid") {
                    Some(sid) => Ok(TokenClaims { sid }),
                    None => Err(GatewayError::MalformedCredential),
                }
            },
            Err(_) => Err(GatewayError::MalformedCredential),
        }
    }

    /// Reads the session identifier out of an identity token. The token's
    /// signature is not verified: the token is taken on trust from whoever
    /// configured it.
    pub fn parse(token: &str) -> (claims: Result<TokenClaims, GatewayError>)
        ensures
            read_session_id(claims) == session_id_of(unverified_claims(token@)),
            separators(token@) != 2 ==> claims == Err::<TokenClaims, GatewayError>(
                GatewayError::MalformedCredential,
            ),
    {
        TokenClaims::from_parsed(parse_unverified(token))
    }
}

} // verus!
