//! The data a request carries: the authenticated payload with its bearer
//! token, the url-encoded forms the handlers read, and the records they
//! build for persistence.

use vstd::prelude::*;

use crate::errors::AuthError;
use crate::json::{get_json_member, get_json_str, json_member, json_str};

verus! {

use vstd::string::StringExecFns;

/// A signed-in user as the payload describes one.
#[derive(Clone, Debug)]
pub struct User {
    pub id: String,
    pub name: String,
    pub email: String,
}

/// The mathematical shadow of a `User`.
pub ghost struct UserView {
    pub id: Seq<char>,
    pub name: Seq<char>,
    pub email: Seq<char>,
}

impl View for User {
    type V = UserView;

    open spec fn view(&self) -> UserView {
        UserView { id: self.id@, name: self.name@, email: self.email@ }
    }
}

/// A persisted payment request.
pub struct Request {
    pub id: i32,
    pub user_id: String,
    pub amount: i32,
}

/// A payment request about to be persisted; the amount is in cents.
pub struct NewRequest {
    pub user_id: String,
    pub amount: i32,
}

/// A stored token bound to a user.
pub struct Token {
    pub user_id: String,
    pub token: String,
}

/// The user the JSON bytes `blob` describe, if every member is present
/// as a string.
pub open spec fn spec_user_of(blob: Seq<u8>) -> Option<UserView> {
    if json_str(blob, "id"@) is Some && json_str(blob, "name"@) is Some && json_str(blob, "email"@)
        is Some {
        Some(
            UserView {
                id: json_str(blob, "id"@)->Some_0,
                name: json_str(blob, "name"@)->Some_0,
                email: json_str(blob, "email"@)->Some_0,
            },
        )
    } else {
        None
    }
}

/// The user and bearer token a request payload carries, if the payload is
/// a JSON object with a complete `user` object and a `jwt` string.
pub open spec fn spec_credentials_of(body: Seq<u8>) -> Option<(UserView, Seq<char>)> {
    match json_member(body, "user"@) {
        None => None,
        Some(ub) => match spec_user_of(ub) {
            None => None,
            Some(u) => match json_str(body, "jwt"@) {
                None => None,
                Some(jwt) => Some((u, jwt)),
            },
        },
    }
}

/// Reads the user and bearer token out of a request payload.
///
/// Fails with `DecodeFailure` exactly when the payload misses either or
/// shapes one wrongly.
pub fn extract_credentials(body: &[u8]) -> (r: Result<(User, String), AuthError>)
    ensures
        match r {
            Ok(cred) => spec_credentials_of(body@) == Some((cred.0@, cred.1@)),
            Err(e) => e == AuthError::DecodeFailure && spec_credentials_of(body@) is None,
        },
{
    let user_blob = match get_json_member(body, "user") {
        Some(b) => b,
        None => { return Err(AuthError::DecodeFailure) },
    };
    let id = match get_json_str(user_blob.as_slice(), "id") {
        Some(s) => s,
        None => { return Err(AuthError::DecodeFailure) },
    };
    let name = match get_json_str(user_blob.as_slice(), "name") {
        Some(s) => s,
        None => { return Err(AuthError::DecodeFailure) },
    };
    let email = match get_json_str(user_blob.as_slice(), "email") {
        Some(s) => s,
        None => { return Err(AuthError::DecodeFailure) },
    };
    let jwt = match get_json_str(body, "jwt") {
        Some(s) => s,
        None => { return Err(AuthError::DecodeFailure) },
    };
    Ok((User { id, name, email }, jwt))
}

/// A field a url-encoded form must carry exactly once.
#[derive(Clone, Copy, Debug, PartialEq, Eq, Structural)]
pub enum FormField {
    Id,
    Name,
    Email,
    UserId,
    Amount,
}

/// How a url-encoded form failed its handler.
#[derive(Clone, Copy, Debug, PartialEq, Eq, Structural)]
pub enum FormError {
    /// The field is absent from the form.
    MissingField(FormField),
    /// The field appears, but not exactly once.
    WrongCount(FormField),
}

/// The decoded form as mathematics: each pair is one key with all the
/// values that arrived under it.
pub open spec fn view_form(params: Seq<(String, Vec<String>)>) -> Seq<(Seq<char>, Seq<Seq<char>>)> {
    params.map_values(|p: (String, Vec<String>)| (p.0@, p.1.deep_view()))
}

/// The values under the first occurrence of `key`, if any.
pub open spec fn spec_form_lookup(
    form: Seq<(Seq<char>, Seq<Seq<char>>)>,
    key: Seq<char>,
) -> Option<Seq<Seq<char>>>
    decreases form.len(),
{
    if form.len() == 0 {
        None
    } else if form[0].0 == key {
        Some(form[0].1)
    } else {
        spec_form_lookup(form.drop_first(), key)
    }
}

/// The value `key` holds exactly once in the form, if it does.
pub open spec fn spec_form_once(
    form: Seq<(Seq<char>, Seq<Seq<char>>)>,
    key: Seq<char>,
) -> Option<Seq<char>> {
    match spec_form_lookup(form, key) {
        None => None,
        Some(vals) => if vals.len() == 1 {
            Some(vals[0])
        } else {
            None
        },
    }
}

/// Fetches the values under `key` out of a decoded form.
fn form_lookup<'a>(params: &'a Vec<(String, Vec<String>)>, key: &str) -> (r: Option<
    &'a Vec<String>,
>)
    ensures
        match r {
            Some(vals) => spec_form_lookup(view_form(params@), key@) == Some(vals.deep_view()),
            None => spec_form_lookup(view_form(params@), key@) is None,
        },
{
    let owned = String::from_str(key);
    let ghost form = view_form(params@);
    proof {
        assert(form.skip(0) =~= form);
    }
    let mut i: usize = 0;
    while i < params.len()
        invariant
            i <= params@.len(),
            owned@ == key@,
            form == view_form(params@),
            form.len() == params@.len(),
            spec_form_lookup(form, key@) == spec_form_lookup(form.skip(i as int), key@),
        decreases params@.len() - i,
    {
        proof {
            assert(form.skip(i as int)[0] == form[i as int]);
            assert(form.skip(i as int).drop_first() =~= form.skip(i + 1));
        }
        if params[i].0.eq(&owned) {
            return Some(&params[i].1);
        }
        i = i + 1;
    }
    proof {
        assert(form.skip(params@.len() as int) =~= Seq::<(Seq<char>, Seq<Seq<char>>)>::empty());
    }
    None
}

/// Fetches the value `key` must hold exactly once, or says how it fails.
fn form_once(params: &Vec<(String, Vec<String>)>, key: &str, field: FormField) -> (r: Result<
    String,
    FormError,
>)
    ensures
        match r {
            Ok(v) => spec_form_once(view_form(params@), key@) == Some(v@),
            Err(FormError::MissingField(f)) => f == field && spec_form_lookup(
                view_form(params@),
                key@,
            ) is None,
            Err(FormError::WrongCount(f)) => f == field && (spec_form_lookup(
                view_form(params@),
                key@,
            ) matches Some(vals) && vals.len() != 1),
        },
{
    let vals = match form_lookup(params, key) {
        Some(v) => v,
        None => { return Err(FormError::MissingField(field)) },
    };
    if vals.len() != 1 {
        return Err(FormError::WrongCount(field));
    }
    Ok(vals[0].clone())
}

impl User {
    /// Builds a user out of a decoded sign-up form: `id`, `name` and
    /// `email` must each appear exactly once, and the first wanting
    /// field, in that order, names the failure.
    pub fn from_form(params: &Vec<(String, Vec<String>)>) -> (r: Result<User, FormError>)
        ensures
            ({
                let form = view_form(params@);
                match r {
                    Ok(u) => spec_form_once(form, "id"@) == Some(u.id@) && spec_form_once(
                        form,
                        "name"@,
                    ) == Some(u.name@) && spec_form_once(form, "email"@) == Some(u.email@),
                    Err(FormError::MissingField(FormField::Id)) => spec_form_lookup(form, "id"@)
                        is None,
                    Err(FormError::WrongCount(FormField::Id)) => spec_form_lookup(form, "id"@)
                        matches Some(vals) && vals.len() != 1,
                    Err(FormError::MissingField(FormField::Name)) => spec_form_once(form, "id"@)
                        is Some && spec_form_lookup(form, "name"@) is None,
                    Err(FormError::WrongCount(FormField::Name)) => spec_form_once(form, "id"@)
                        is Some && (spec_form_lookup(form, "name"@) matches Some(vals)
                        && vals.len() != 1),
                    Err(FormError::MissingField(FormField::Email)) => spec_form_once(form, "id"@)
                        is Some && spec_form_once(form, "name"@) is Some && spec_form_lookup(
                        form,
                        "email"@,
                    ) is None,
                    Err(FormError::WrongCount(FormField::Email)) => spec_form_once(form, "id"@)
                        is Some && spec_form_once(form, "name"@) is Some && (spec_form_lookup(
                        form,
                        "email"@,
                    ) matches Some(vals) && vals.len() != 1),
                    _ => false,
                }
            }),
    {
        let id = form_once(params, "id", FormField::Id)?;
        let name = form_once(params, "name", FormField::Name)?;
        let email = form_once(params, "email", FormField::Email)?;
        Ok(User { id, name, email })
    }
}

/// Reads a payment-request form: `user_id` and `amount` must each appear
/// exactly once, and come back as texts, the amount still unparsed.
pub fn request_form_fields(params: &Vec<(String, Vec<String>)>) -> (r: Result<
    (String, String),
    FormError,
>)
    ensures
        ({
            let form = view_form(params@);
            match r {
                Ok(fields) => spec_form_once(form, "user_id"@) == Some(fields.0@)
                    && spec_form_once(form, "amount"@) == Some(fields.1@),
                Err(FormError::MissingField(FormField::UserId)) => spec_form_lookup(
                    form,
                    "user_id"@,
                ) is None,
                Err(FormError::WrongCount(FormField::UserId)) => spec_form_lookup(form, "user_id"@)
                    matches Some(vals) && vals.len() != 1,
                Err(FormError::MissingField(FormField::Amount)) => spec_form_once(form, "user_id"@)
                    is Some && spec_form_lookup(form, "amount"@) is None,
                Err(FormError::WrongCount(FormField::Amount)) => spec_form_once(form, "user_id"@)
                    is Some && (spec_form_lookup(form, "amount"@) matches Some(vals) && vals.len()
                    != 1),
                _ => false,
            }
        }),
{
    let user_id = form_once(params, "user_id", FormField::UserId)?;
    let amount = form_once(params, "amount", FormField::Amount)?;
    Ok((user_id, amount))
}

} // verus!
