//! What the login exchange computes between its requests: the verification
//! token out of the login page, the form that asks for a session, and the
//! ticket code out of the answer.

use crate::json::{json_member, json_text, member, text_of};
use crate::text::{field, fields_of};
use serde_json::Value;
use visdom::Vis;
use vstd::prelude::*;
use vstd::string::*;

verus! {

/// The selector of the input that holds the verification token.
pub open spec fn token_selector() -> Seq<char> {
    "input[name=\"__RequestVerificationToken\"]"@
}

/// What visdom finds in a page: the value of the first element that matches
/// a selector, empty where none matches; or visdom's message where it cannot
/// load the page.
pub uninterp spec fn first_value_in(html: Seq<char>, selector: Seq<char>) -> Result<
    Seq<char>,
    Seq<char>,
>;

/// Calls `visdom::Vis::load` and then `find`, `first` and `val` on the
/// elements, and collects the value as text; an error of `load` is handed
/// back as its message. Trusted: the result is what `first_value_in` names.
/// The selector is held to the token selector, which visdom accepts; on a
/// selector that it rejects, `find` would panic.
#[verifier::external_body]
fn first_value(html: &str, selector: &str) -> (value: Result<String, String>)
    requires
        selector@ == token_selector(),
    ensures
        first_value_in(html@, selector@) == match value {
            Ok(v) => Ok::<Seq<char>, Seq<char>>(v@),
            Err(e) => Err::<Seq<char>, Seq<char>>(e@),
        },
{
    match Vis::load(html) {
        Ok(page) => Ok(page.find(selector).first().val().to_string()),
        Err(e) => Err(e.to_string()),
    }
}

/// The fields of the form that asks for a session, in the order in which
/// they are sent.
pub open spec fn login_fields(
    token: Seq<char>,
    company: Seq<char>,
    username: Seq<char>,
    password: Seq<char>,
) -> Seq<(Seq<char>, Seq<char>)> {
    seq![
        ("__RequestVerificationToken"@, token),
        ("companyCode"@, company),
        ("employeeNo"@, username),
        ("grant_type"@, "password"@),
        ("locale"@, "zh-tw"@),
        ("password"@, password),
        ("red"@, "https,//apollo.mayohr.com/tube"@),
        ("userName"@, company + "-"@ + username),
    ]
}

/// The verification token of a login page: the value of the input named
/// `__RequestVerificationToken`, empty where the page has none. Fails with
/// visdom's message where the page cannot be loaded.
pub fn request_verification_token(html: &str) -> (token: Result<String, String>)
    ensures
        first_value_in(html@, token_selector()) == match token {
            Ok(v) => Ok::<Seq<char>, Seq<char>>(v@),
            Err(e) => Err::<Seq<char>, Seq<char>>(e@),
        },
{
    first_value(html, "input[name=\"__RequestVerificationToken\"]")
}

/// The form that asks the service for a session: the token of the login
/// page, the company, the employee and the password, with the user name
/// made of company and employee.
pub fn login_form(token: &str, company: &str, username: &str, password: &str) -> (form: Vec<
    (String, String),
>)
    ensures
        fields_of(form@) == login_fields(token@, company@, username@, password@),
{
    let user_name = String::from_str(company).concat("-").concat(username);
    let mut form: Vec<(String, String)> = Vec::new();
    form.push(field("__RequestVerificationToken", token));
    form.push(field("companyCode", company));
    form.push(field("employeeNo", username));
    form.push(field("grant_type", "password"));
    form.push(field("locale", "zh-tw"));
    form.push(field("password", password));
    form.push(field("red", "https,//apollo.mayohr.com/tube"));
    form.push(field("userName", user_name.as_str()));
    assert(fields_of(form@) =~= login_fields(token@, company@, username@, password@));
    form
}

/// The ticket code in the service's answer to the login form: the text
/// under `code`, where there is one.
pub fn ticket_code(auth_data: &Value) -> (code: Option<String>)
    ensures
        json_text(json_member(*auth_data, "code"@)) == match code {
            Some(c) => Some(c@),
            None => None,
        },
{
    match text_of(member(auth_data, "code")) {
        Some(code) => Some(String::from_str(code)),
        None => None,
    }
}

} // verus!
