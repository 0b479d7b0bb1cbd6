//! The login to the remote service: the form that is posted, and the token
//! data it returns.

use vstd::prelude::*;
use crate::config::SalesforceConfig;
use crate::text::push_str;

verus! {

/// What a successful login returns.
pub struct LoginData {
    pub access_token: String,
    pub instance_url: String,
    pub id: String,
    pub token_type: String,
    pub issued_at: String,
    pub signature: String,
}

/// The fields of the password login form: the password is followed by the
/// security token.
pub open spec fn login_form_of(c: SalesforceConfig) -> Seq<(Seq<char>, Seq<char>)> {
    seq![
        ("grant_type"@, "password"@),
        ("client_id"@, c.client_id@),
        ("client_secret"@, c.client_secret@),
        ("username"@, c.username@),
        ("password"@, c.password@ + c.sec_token@),
    ]
}

fn pair(k: &str, v: &String) -> (r: (String, String))
    ensures
        r.0@ == k@,
        r.1@ == v@,
{
    (String::from_str(k), v.clone())
}

/// The form posted to log in.
pub fn login_form(c: &SalesforceConfig) -> (r: Vec<(String, String)>)
    ensures
        r@.map_values(|p: (String, String)| (p.0@, p.1@)) == login_form_of(*c),
{
    let mut pw = c.password.clone();
    push_str(&mut pw, c.sec_token.as_str());
    let mut v: Vec<(String, String)> = Vec::new();
    v.push((String::from_str("grant_type"), String::from_str("password")));
    v.push(pair("client_id", &c.client_id));
    v.push(pair("client_secret", &c.client_secret));
    v.push(pair("username", &c.username));
    v.push((String::from_str("password"), pw));
    assert(v@.map_values(|p: (String, String)| (p.0@, p.1@)) =~= login_form_of(*c));
    v
}

/// The `Authorization` header value for an access token.
pub fn bearer(token: &str) -> (r: String)
    ensures
        r@ == "Bearer "@ + token@,
{
    let mut s = String::from_str("Bearer ");
    push_str(&mut s, token);
    s
}

} // verus!
