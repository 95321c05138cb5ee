use oidc_gate::models::{request_form_fields, FormError, FormField, User};
use oidc_gate::request::{Display, ParseFault, Prompt, ResponseType, Scope};

#[test]
fn display_spellings_round() {
    assert!(Display::from_str("ULTRA WIDE").is_err());
    assert_eq!(Display::from_str("page").unwrap(), Display::Page);
    assert_eq!(Display::from_str("popup").unwrap(), Display::Popup);
    assert_eq!(Display::from_str("touch").unwrap(), Display::Touch);
    assert_eq!(Display::from_str("wap").unwrap(), Display::Wap);
    assert_eq!(Display::Page.as_str(), "page");
    assert_eq!(Display::Wap.as_str(), "wap");
    assert_eq!(Display::default(), Display::Page);
    assert_eq!(Display::from_str("Page").unwrap_err(), ParseFault::UnknownDisplay);
}

#[test]
fn prompt_spellings_round() {
    assert!(Prompt::from_str("JUST DO IT").is_err());
    assert_eq!(Prompt::from_str("none").unwrap(), Prompt::NoPrompt);
    assert_eq!(Prompt::from_str("login").unwrap(), Prompt::Login);
    assert_eq!(Prompt::from_str("consent").unwrap(), Prompt::Consent);
    assert_eq!(Prompt::from_str("select_account").unwrap(), Prompt::SelectAccount);
    assert_eq!(Prompt::NoPrompt.as_str(), "none");
    assert_eq!(Prompt::SelectAccount.as_str(), "select_account");
}

#[test]
fn response_type_spellings_round() {
    assert!(ResponseType::from_str("Nice response").is_err());
    assert_eq!(ResponseType::from_str("code").unwrap(), ResponseType::Code);
    assert_eq!(ResponseType::from_str("token").unwrap(), ResponseType::Token);
    assert_eq!(ResponseType::Code.as_str(), "code");
    assert_eq!(ResponseType::Token.as_str(), "token");
    assert_eq!(ResponseType::default(), ResponseType::Code);
}

#[test]
fn scope_spellings_round() {
    assert_eq!(Scope::from_str("profile"), Scope::Profile);
    assert_eq!(Scope::from_str("email"), Scope::Email);
    assert_eq!(Scope::from_str("address"), Scope::Address);
    assert_eq!(Scope::from_str("phone"), Scope::Phone);
    assert_eq!(Scope::from_str("google.scope"), Scope::Ext("google.scope".to_string()));
    assert_eq!(Scope::Profile.as_str(), "profile");
    assert_eq!(Scope::Ext("x.y".to_string()).as_str(), "x.y");
}

fn form(pairs: &[(&str, &[&str])]) -> Vec<(String, Vec<String>)> {
    pairs
        .iter()
        .map(|(k, vs)| (k.to_string(), vs.iter().map(|v| v.to_string()).collect()))
        .collect()
}

#[test]
fn user_form_builds_user() {
    let params = form(&[("id", &["u1"]), ("name", &["Ada"]), ("email", &["ada@example.com"])]);
    let user = User::from_form(&params).unwrap();
    assert_eq!(user.id, "u1");
    assert_eq!(user.name, "Ada");
    assert_eq!(user.email, "ada@example.com");
}

#[test]
fn user_form_reports_first_wanting_field() {
    let params = form(&[("name", &["Ada"]), ("email", &["a@b"])]);
    assert_eq!(User::from_form(&params).unwrap_err(), FormError::MissingField(FormField::Id));
    let params = form(&[("id", &["u1", "u2"]), ("name", &["Ada"]), ("email", &["a@b"])]);
    assert_eq!(User::from_form(&params).unwrap_err(), FormError::WrongCount(FormField::Id));
    let params = form(&[("id", &["u1"]), ("email", &["a@b"])]);
    assert_eq!(User::from_form(&params).unwrap_err(), FormError::MissingField(FormField::Name));
    let params = form(&[("id", &["u1"]), ("name", &["Ada"])]);
    assert_eq!(User::from_form(&params).unwrap_err(), FormError::MissingField(FormField::Email));
    let params = form(&[("id", &["u1"]), ("name", &["Ada"]), ("email", &[])]);
    assert_eq!(User::from_form(&params).unwrap_err(), FormError::WrongCount(FormField::Email));
}

#[test]
fn request_form_hands_out_both_texts() {
    let params = form(&[("user_id", &["u1"]), ("amount", &["12.50"])]);
    let (user_id, amount) = request_form_fields(&params).unwrap();
    assert_eq!(user_id, "u1");
    assert_eq!(amount, "12.50");
    let params = form(&[("amount", &["12.50"])]);
    assert_eq!(
        request_form_fields(&params).unwrap_err(),
        FormError::MissingField(FormField::UserId)
    );
    let params = form(&[("user_id", &["u1"])]);
    assert_eq!(
        request_form_fields(&params).unwrap_err(),
        FormError::MissingField(FormField::Amount)
    );
}

#[test]
fn first_form_occurrence_wins() {
    let params = form(&[("user_id", &["first"]), ("user_id", &["second"]), ("amount", &["1"])]);
    let (user_id, _) = request_form_fields(&params).unwrap();
    assert_eq!(user_id, "first");
}
