//! The enumerated parameters of an outbound authorization request, with
//! their exact wire spellings.

use vstd::prelude::*;

verus! {

use vstd::string::StringExecFns;

/// A parameter value that is not one of the known spellings.
#[derive(Clone, Copy, Debug, PartialEq, Eq, Structural)]
pub enum ParseFault {
    UnknownDisplay,
    UnknownPrompt,
    UnknownResponseType,
}

/// How the authorization server should display authentication and
/// consent interfaces to the end user.
#[derive(Clone, Debug, PartialEq, Eq, Hash)]
pub enum Display {
    /// A full user-agent page view; the default.
    Page,
    /// A popup user-agent window.
    Popup,
    /// An interface for a touch device.
    Touch,
    /// An interface for a feature-phone display.
    Wap,
}

impl Display {
    /// The wire spelling of the value.
    pub fn as_str(&self) -> (r: &str)
        ensures
            r@ == match self {
                Display::Page => "page"@,
                Display::Popup => "popup"@,
                Display::Touch => "touch"@,
                Display::Wap => "wap"@,
            },
    {
        match self {
            Display::Page => "page",
            Display::Popup => "popup",
            Display::Touch => "touch",
            Display::Wap => "wap",
        }
    }

    /// Reads a wire spelling, case-sensitively.
    pub fn from_str(s: &str) -> (r: Result<Display, ParseFault>)
        ensures
            r == (if s@ == "page"@ {
                Ok::<Display, ParseFault>(Display::Page)
            } else if s@ == "popup"@ {
                Ok::<Display, ParseFault>(Display::Popup)
            } else if s@ == "touch"@ {
                Ok::<Display, ParseFault>(Display::Touch)
            } else if s@ == "wap"@ {
                Ok::<Display, ParseFault>(Display::Wap)
            } else {
                Err::<Display, ParseFault>(ParseFault::UnknownDisplay)
            }),
    {
        let owned = String::from_str(s);
        if owned.eq(&String::from_str("page")) {
            Ok(Display::Page)
        } else if owned.eq(&String::from_str("popup")) {
            Ok(Display::Popup)
        } else if owned.eq(&String::from_str("touch")) {
            Ok(Display::Touch)
        } else if owned.eq(&String::from_str("wap")) {
            Ok(Display::Wap)
        } else {
            Err(ParseFault::UnknownDisplay)
        }
    }
}

impl Default for Display {
    /// The page view.
    fn default() -> (r: Display)
        ensures
            r == Display::Page,
    {
        Display::Page
    }
}

/// Whether the authorization server prompts the end user again for
/// authentication or consent.
#[derive(Clone, Debug, PartialEq, Eq, Hash)]
pub enum Prompt {
    /// No interface at all; an unauthenticated end user is an error.
    NoPrompt,
    /// Prompt for reauthentication.
    Login,
    /// Prompt for consent.
    Consent,
    /// Prompt to pick an account.
    SelectAccount,
}

impl Prompt {
    /// The wire spelling of the value.
    pub fn as_str(&self) -> (r: &str)
        ensures
            r@ == match self {
                Prompt::NoPrompt => "none"@,
                Prompt::Login => "login"@,
                Prompt::Consent => "consent"@,
                Prompt::SelectAccount => "select_account"@,
            },
    {
        match self {
            Prompt::NoPrompt => "none",
            Prompt::Login => "login",
            Prompt::Consent => "consent",
            Prompt::SelectAccount => "select_account",
        }
    }

    /// Reads a wire spelling, case-sensitively.
    pub fn from_str(s: &str) -> (r: Result<Prompt, ParseFault>)
        ensures
            r == (if s@ == "none"@ {
                Ok::<Prompt, ParseFault>(Prompt::NoPrompt)
            } else if s@ == "login"@ {
                Ok::<Prompt, ParseFault>(Prompt::Login)
            } else if s@ == "consent"@ {
                Ok::<Prompt, ParseFault>(Prompt::Consent)
            } else if s@ == "select_account"@ {
                Ok::<Prompt, ParseFault>(Prompt::SelectAccount)
            } else {
                Err::<Prompt, ParseFault>(ParseFault::UnknownPrompt)
            }),
    {
        let owned = String::from_str(s);
        if owned.eq(&String::from_str("none")) {
            Ok(Prompt::NoPrompt)
        } else if owned.eq(&String::from_str("login")) {
            Ok(Prompt::Login)
        } else if owned.eq(&String::from_str("consent")) {
            Ok(Prompt::Consent)
        } else if owned.eq(&String::from_str("select_account")) {
            Ok(Prompt::SelectAccount)
        } else {
            Err(ParseFault::UnknownPrompt)
        }
    }
}

/// How the authorization server returns parameters from the
/// authorization endpoint.
#[derive(Clone, Debug, PartialEq, Eq, Hash)]
pub enum ResponseType {
    /// An authorization code, to be exchanged for a token later.
    Code,
    /// An access token, returned in the redirect itself.
    Token,
}

impl ResponseType {
    /// The wire spelling of the value.
    pub fn as_str(&self) -> (r: &str)
        ensures
            r@ == match self {
                ResponseType::Code => "code"@,
                ResponseType::Token => "token"@,
            },
    {
        match self {
            ResponseType::Code => "code",
            ResponseType::Token => "token",
        }
    }

    /// Reads a wire spelling, case-sensitively.
    pub fn from_str(s: &str) -> (r: Result<ResponseType, ParseFault>)
        ensures
            r == (if s@ == "code"@ {
                Ok::<ResponseType, ParseFault>(ResponseType::Code)
            } else if s@ == "token"@ {
                Ok::<ResponseType, ParseFault>(ResponseType::Token)
            } else {
                Err::<ResponseType, ParseFault>(ParseFault::UnknownResponseType)
            }),
    {
        let owned = String::from_str(s);
        if owned.eq(&String::from_str("code")) {
            Ok(ResponseType::Code)
        } else if owned.eq(&String::from_str("token")) {
            Ok(ResponseType::Token)
        } else {
            Err(ParseFault::UnknownResponseType)
        }
    }
}

impl Default for ResponseType {
    /// The authorization-code flow.
    fn default() -> (r: ResponseType)
        ensures
            r == ResponseType::Code,
    {
        ResponseType::Code
    }
}

/// A requested claim scope.
#[derive(Clone, Debug, PartialEq, Eq, Hash)]
pub enum Scope {
    /// The end user's default profile claims.
    Profile,
    /// The email and email-verified claims.
    Email,
    /// The address claim.
    Address,
    /// The phone-number claims.
    Phone,
    /// A scope outside the core set, carried verbatim.
    Ext(String),
}

impl Scope {
    /// The wire spelling of the value.
    pub fn as_str(&self) -> (r: &str)
        ensures
            r@ == match self {
                Scope::Profile => "profile"@,
                Scope::Email => "email"@,
                Scope::Address => "address"@,
                Scope::Phone => "phone"@,
                Scope::Ext(s) => s@,
            },
    {
        match self {
            Scope::Profile => "profile",
            Scope::Email => "email",
            Scope::Address => "address",
            Scope::Phone => "phone",
            Scope::Ext(s) => s.as_str(),
        }
    }

    /// Reads a wire spelling, case-sensitively; anything outside the core
    /// set comes back verbatim as an extension scope.
    pub fn from_str(s: &str) -> (r: Scope)
        ensures
            s@ == "profile"@ ==> r == Scope::Profile,
            s@ == "email"@ ==> r == Scope::Email,
            s@ == "address"@ ==> r == Scope::Address,
            s@ == "phone"@ ==> r == Scope::Phone,
            s@ != "profile"@ && s@ != "email"@ && s@ != "address"@ && s@ != "phone"@ ==> (r matches
                Scope::Ext(e) && e@ == s@),
    {
        proof {
            reveal_strlit("profile");
            reveal_strlit("email");
            reveal_strlit("address");
            reveal_strlit("phone");
            assert("profile"@.len() == 7 && "email"@.len() == 5 && "address"@.len() == 7
                && "phone"@.len() == 5);
            assert("profile"@[0] == 'p' && "address"@[0] == 'a');
            assert("phone"@[0] == 'p' && "email"@[0] == 'e');
            assert("profile"@ != "address"@ && "phone"@ != "email"@);
        }
        let owned = String::from_str(s);
        if owned.eq(&String::from_str("profile")) {
            Scope::Profile
        } else if owned.eq(&String::from_str("email")) {
            Scope::Email
        } else if owned.eq(&String::from_str("address")) {
            Scope::Address
        } else if owned.eq(&String::from_str("phone")) {
            Scope::Phone
        } else {
            Scope::Ext(owned)
        }
    }
}

} // verus!
