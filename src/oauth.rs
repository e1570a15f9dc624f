use vstd::prelude::*;
use crate::cache::AccessTokenHash;
use crate::text::decimal;
use crate::text::push_decimal;
use crate::validator::token_hash_text;
use crate::validator::token_key_with_expiry;

verus! {

/// A permission that the authorization asks for.
#[derive(PartialEq, Eq, Structural, Clone, Copy, Debug)]
pub enum OauthScope {
    Identify,
    Guilds,
}

#[derive(PartialEq, Eq, Structural, Clone, Copy, Debug)]
pub enum ResponseType {
    Code,
}

/// What the authorization address is built from.
pub struct OauthUrlSettings {
    pub scopes: Vec<OauthScope>,
    pub client_id: u64,
    pub redirect_uri: String,
    pub response_type: ResponseType,
}

/// How a token is asked for: with the code of an authorization, or with a refresh token.
#[derive(Debug)]
pub enum GrantType {
    AuthorizationCode(String),
    RefreshToken(String),
}

/// The token endpoint's answer.
#[derive(Debug)]
pub struct AccessTokenResponse {
    pub access_token: String,
    pub token_type: String,
    pub expires_in: i64,
    pub refresh_token: String,
    pub scope: String,
}

pub open spec fn scope_text(s: OauthScope) -> Seq<char> {
    match s {
        OauthScope::Identify => "identify"@,
        OauthScope::Guilds => "guilds"@,
    }
}

pub open spec fn response_type_text(r: ResponseType) -> Seq<char> {
    match r {
        ResponseType::Code => "code"@,
    }
}

pub open spec fn grant_type_text(g: GrantType) -> Seq<char> {
    match g {
        GrantType::AuthorizationCode(_) => "authorization_code"@,
        GrantType::RefreshToken(_) => "refresh_token"@,
    }
}

/// The scopes' names joined by an encoded space.
pub open spec fn joined_scopes(s: Seq<OauthScope>) -> Seq<char>
    decreases s.len(),
{
    if s.len() == 0 {
        Seq::empty()
    } else if s.len() == 1 {
        scope_text(s[0])
    } else {
        joined_scopes(s.drop_last()) + "%20"@ + scope_text(s.last())
    }
}

pub open spec fn authorize_url(settings: OauthUrlSettings) -> Seq<char> {
    "https://discord.com/oauth2/authorize?client_id="@ + decimal(settings.client_id as nat)
        + "&redirect_uri="@ + settings.redirect_uri@
        + "&response_type="@ + response_type_text(settings.response_type)
        + "&scope="@ + joined_scopes(settings.scopes@)
}

impl OauthScope {
    /// The scope's name.
    pub fn to_string(&self) -> (r: String)
        ensures
            r@ == scope_text(*self),
    {
        match self {
            OauthScope::Identify => String::from_str("identify"),
            OauthScope::Guilds => String::from_str("guilds"),
        }
    }
}

impl ResponseType {
    pub fn to_string(&self) -> (r: String)
        ensures
            r@ == response_type_text(*self),
    {
        match self {
            ResponseType::Code => String::from_str("code"),
        }
    }
}

impl GrantType {
    /// The grant's name, as the token endpoint reads it.
    pub fn to_string(&self) -> (r: String)
        ensures
            r@ == grant_type_text(*self),
    {
        match self {
            GrantType::AuthorizationCode(_) => String::from_str("authorization_code"),
            GrantType::RefreshToken(_) => String::from_str("refresh_token"),
        }
    }
}

/// Builds the addresses of the authorization flow.
pub struct OauthController;

impl OauthController {
    /// The address that sends a user to authorize this service.
    pub fn create_url(settings: OauthUrlSettings) -> (r: String)
        ensures
            r@ == authorize_url(settings),
    {
        let mut u = String::from_str("https://discord.com/oauth2/authorize?client_id=");
        push_decimal(&mut u, settings.client_id);
        u.append("&redirect_uri=");
        u.append(settings.redirect_uri.as_str());
        u.append("&response_type=");
        let rt = settings.response_type.to_string();
        u.append(rt.as_str());
        u.append("&scope=");
        let ghost head = u@;
        let mut i: usize = 0;
        while i < settings.scopes.len()
            invariant
                i <= settings.scopes@.len(),
                u@ == head + joined_scopes(settings.scopes@.subrange(0, i as int)),
            decreases settings.scopes.len() - i,
        {
            let ghost pre = settings.scopes@.subrange(0, i as int);
            let ghost next = settings.scopes@.subrange(0, i as int + 1);
            assert(next.drop_last() =~= pre);
            if i > 0 {
                u.append("%20");
            }
            let t = settings.scopes[i].to_string();
            u.append(t.as_str());
            proof {
                if i == 0 {
                    assert(pre.len() == 0);
                    assert(joined_scopes(pre) =~= Seq::<char>::empty());
                }
            }
            i = i + 1;
            assert(u@ =~= head + joined_scopes(settings.scopes@.subrange(0, i as int)));
        }
        assert(settings.scopes@.subrange(0, settings.scopes.len() as int) =~= settings.scopes@);
        u
    }
}

/// Where the authorization flow returns to: `{client_uri}/authenticate`.
pub fn redirect_uri(client_uri: &str) -> (r: String)
    ensures
        r@ == client_uri@ + "/authenticate"@,
{
    let mut u = String::from_str(client_uri);
    u.append("/authenticate");
    u
}

/// One field of a form.
pub struct FormField {
    pub name: String,
    pub value: String,
}

/// The form that asks the token endpoint for a token.
pub open spec fn token_form_view(grant: GrantType, client_id: Seq<char>, client_secret: Seq<char>, client_uri: Seq<char>) -> Seq<(Seq<char>, Seq<char>)> {
    seq![
        ("client_id"@, client_id),
        ("client_secret"@, client_secret),
        ("redirect_uri"@, client_uri + "/authenticate"@),
        ("grant_type"@, grant_type_text(grant)),
        match grant {
            GrantType::AuthorizationCode(code) => ("code"@, code@),
            GrantType::RefreshToken(token) => ("refresh_token"@, token@),
        },
    ]
}

fn field(name: &str, value: String) -> (r: FormField)
    ensures
        r.name@ == name@,
        r.value == value,
{
    FormField { name: String::from_str(name), value }
}

/// The fields of a token request: the client's credentials, where the flow returns to,
/// the grant's name, and the code or refresh token that the grant carries.
pub fn token_form(grant: GrantType, client_id: &str, client_secret: &str, client_uri: &str) -> (r: Vec<FormField>)
    ensures
        r@.map_values(|f: FormField| (f.name@, f.value@)) == token_form_view(grant, client_id@, client_secret@, client_uri@),
{
    let mut form: Vec<FormField> = Vec::new();
    form.push(field("client_id", String::from_str(client_id)));
    form.push(field("client_secret", String::from_str(client_secret)));
    form.push(field("redirect_uri", redirect_uri(client_uri)));
    form.push(field("grant_type", grant.to_string()));
    let ghost g = grant;
    match grant {
        GrantType::AuthorizationCode(code) => form.push(field("code", code)),
        GrantType::RefreshToken(token) => form.push(field("refresh_token", token)),
    }
    assert(form@.map_values(|f: FormField| (f.name@, f.value@)) =~= token_form_view(g, client_id@, client_secret@, client_uri@));
    form
}

/// The key that caches the user id of a freshly issued token for as long as the token
/// stays valid; none when its lifetime is negative or does not fit a `usize`.
pub fn issued_token_key(response: &AccessTokenResponse) -> (r: Option<AccessTokenHash>)
    ensures
        r is Some <==> 0 <= response.expires_in <= usize::MAX,
        r matches Some(k) ==> k.hash@ == token_hash_text(response.access_token@)
            && k.expires_in == Some(response.expires_in as usize),
{
    if response.expires_in < 0 || response.expires_in as u64 > usize::MAX as u64 {
        None
    } else {
        Some(token_key_with_expiry(response.access_token.as_str(), response.expires_in as usize))
    }
}

} // verus!
