//! What is said of users at the boundary.

use crate::common::decimal::Decimal;
use crate::common::validation::{is_email, validate_email, validate_length};
use crate::common::{
    birthday_violation, decimal_at_least_zero, finding, min_age_13yo, verdict, Validation,
    ValidationError,
};
use crate::models::user_model::{Location, User};
use vstd::prelude::*;

verus! {

/// What a user logs in with.
#[derive(Debug, PartialEq, Eq)]
pub struct LoginPayload {
    pub email: String,
    pub password: String,
}

impl LoginPayload {
    /// The first rule that the login breaks, by its code: the e-mail address
    /// reads as one, and the password is not empty.
    pub open spec fn violation(&self) -> Option<Seq<char>> {
        if !is_email(self.email@) {
            Some("email"@)
        } else if self.password@.len() < 1 {
            Some("length"@)
        } else {
            None
        }
    }
}

impl Validation for LoginPayload {
    fn validate(&self) -> (r: Result<(), String>)
        ensures
            finding(r) == self.violation(),
    {
        if !validate_email(self.email.as_str()) {
            return Err(ValidationError::new("email").code);
        }
        if !validate_length(self.password.as_str(), Some(1), None, None) {
            return Err(ValidationError::new("length").code);
        }
        Ok(())
    }
}

/// The field of a signup that is to be looked at on its own.
#[derive(Clone, Copy, Debug, PartialEq, Eq, Structural)]
pub enum ValidateUserContentType {
    Email,
    Password,
    Birthday,
}

/// One field of a signup, to be looked at on its own.
#[derive(Debug, PartialEq, Eq)]
pub struct ValidateUserPayload {
    pub field: ValidateUserContentType,
    pub content: String,
}

/// What is held against one field of a signup at the moment `now`: an e-mail
/// address has to read as one, a password has to have eight characters, and a
/// birthday has to lie more than thirteen years back.
pub open spec fn field_violation(
    field: ValidateUserContentType,
    content: Seq<char>,
    now: int,
) -> Option<Seq<char>> {
    match field {
        ValidateUserContentType::Email => if is_email(content) {
            None
        } else {
            Some("Email is invaid"@)
        },
        ValidateUserContentType::Password => if content.len() >= 8 {
            None
        } else {
            Some("Password must be at least 8 characters long"@)
        },
        ValidateUserContentType::Birthday => birthday_violation(content, now),
    }
}

/// Looks at one field of a signup at the moment `now`, in seconds since the
/// epoch.
pub fn validate_validate_user_payload(payload: &ValidateUserPayload, now: i64) -> (r: Result<
    (),
    ValidationError,
>)
    ensures
        verdict(r) == field_violation(payload.field, payload.content@, now as int),
{
    match payload.field {
        ValidateUserContentType::Email => {
            if validate_email(payload.content.as_str()) {
                Ok(())
            } else {
                Err(ValidationError::new("Email is invaid"))
            }
        },
        ValidateUserContentType::Password => {
            if validate_length(payload.content.as_str(), Some(8), None, None) {
                Ok(())
            } else {
                Err(ValidationError::new("Password must be at least 8 characters long"))
            }
        },
        ValidateUserContentType::Birthday => min_age_13yo(&payload.content, now),
    }
}

/// What a user signs up with.
#[derive(Debug, PartialEq)]
pub struct SignupPayload {
    pub email: String,
    pub password: String,
    pub first_name: String,
    pub last_name: String,
    pub income: Decimal,
    pub location: Location,
    pub birthday: String,
}

/// What is said of a user who has signed up, logged in or changed something.
#[derive(Debug, PartialEq)]
pub struct SignupResponse {
    pub email: String,
    pub first_name: String,
    pub last_name: String,
    pub income: Decimal,
    pub location: Location,
}

impl SignupResponse {
    pub fn new(u: User) -> (response: SignupResponse)
        ensures
            response == (SignupResponse {
                email: u.email,
                first_name: u.first_name,
                last_name: u.last_name,
                income: u.income,
                location: u.location,
            }),
    {
        SignupResponse {
            email: u.email,
            first_name: u.first_name,
            last_name: u.last_name,
            income: u.income,
            location: u.location,
        }
    }
}

/// What a user wants changed: each part that is given takes the place of the
/// user's.
#[derive(Debug, PartialEq)]
pub struct UpdatePayload {
    pub email: Option<String>,
    pub password: Option<String>,
    pub first_name: Option<String>,
    pub last_name: Option<String>,
    pub income: Option<Decimal>,
    pub net_worth: Option<Decimal>,
    pub location: Option<Location>,
    pub birthday: Option<String>,
}

/// The first rule that the particulars of a user break at the moment `now`, by
/// its code. A part that is not given breaks none. The e-mail address reads as
/// one; password, first name and last name are not empty; the income is not
/// negative; the birthday lies more than thirteen years back.
pub open spec fn particulars_violation(
    email: Option<Seq<char>>,
    password: Option<Seq<char>>,
    first_name: Option<Seq<char>>,
    last_name: Option<Seq<char>>,
    income: Option<(int, nat)>,
    birthday: Option<Seq<char>>,
    now: int,
) -> Option<Seq<char>> {
    if email matches Some(text) && !is_email(text) {
        Some("email"@)
    } else if password matches Some(text) && text.len() < 1 {
        Some("length"@)
    } else if first_name matches Some(text) && text.len() < 1 {
        Some("length"@)
    } else if last_name matches Some(text) && text.len() < 1 {
        Some("length"@)
    } else if income matches Some(amount) && amount.0 < 0 {
        Some("Field must be at least 0"@)
    } else {
        match birthday {
            Some(text) => birthday_violation(text, now),
            None => None,
        }
    }
}

fn validate_particulars(
    email: Option<&String>,
    password: Option<&String>,
    first_name: Option<&String>,
    last_name: Option<&String>,
    income: Option<&Decimal>,
    birthday: Option<&String>,
    now: i64,
) -> (r: Result<(), String>)
    ensures
        finding(r) == particulars_violation(
            match email {
                Some(text) => Some(text@),
                None => None,
            },
            match password {
                Some(text) => Some(text@),
                None => None,
            },
            match first_name {
                Some(text) => Some(text@),
                None => None,
            },
            match last_name {
                Some(text) => Some(text@),
                None => None,
            },
            match income {
                Some(amount) => Some(amount@),
                None => None,
            },
            match birthday {
                Some(text) => Some(text@),
                None => None,
            },
            now as int,
        ),
{
    match email {
        Some(text) => {
            if !validate_email(text.as_str()) {
                return Err(ValidationError::new("email").code);
            }
        },
        None => {},
    }
    match password {
        Some(text) => {
            if !validate_length(text.as_str(), Some(1), None, None) {
                return Err(ValidationError::new("length").code);
            }
        },
        None => {},
    }
    match first_name {
        Some(text) => {
            if !validate_length(text.as_str(), Some(1), None, None) {
                return Err(ValidationError::new("length").code);
            }
        },
        None => {},
    }
    match last_name {
        Some(text) => {
            if !validate_length(text.as_str(), Some(1), None, None) {
                return Err(ValidationError::new("length").code);
            }
        },
        None => {},
    }
    match income {
        Some(amount) => {
            match decimal_at_least_zero(amount) {
                Err(error) => {
                    return Err(error.code);
                },
                Ok(_) => {},
            }
        },
        None => {},
    }
    match birthday {
        Some(text) => match min_age_13yo(text, now) {
            Err(error) => Err(error.code),
            Ok(_) => Ok(()),
        },
        None => Ok(()),
    }
}

impl SignupPayload {
    /// Holds the signup against the rules for it at the moment `now`, in
    /// seconds since the epoch.
    pub fn validate(&self, now: i64) -> (r: Result<(), String>)
        ensures
            finding(r) == particulars_violation(
                Some(self.email@),
                Some(self.password@),
                Some(self.first_name@),
                Some(self.last_name@),
                Some(self.income@),
                Some(self.birthday@),
                now as int,
            ),
    {
        validate_particulars(
            Some(&self.email),
            Some(&self.password),
            Some(&self.first_name),
            Some(&self.last_name),
            Some(&self.income),
            Some(&self.birthday),
            now,
        )
    }
}

impl UpdatePayload {
    /// The first rule that the update breaks at the moment `now`, by its code.
    pub open spec fn violation(&self, now: int) -> Option<Seq<char>> {
        particulars_violation(
            match self.email {
                Some(text) => Some(text@),
                None => None,
            },
            match self.password {
                Some(text) => Some(text@),
                None => None,
            },
            match self.first_name {
                Some(text) => Some(text@),
                None => None,
            },
            match self.last_name {
                Some(text) => Some(text@),
                None => None,
            },
            match self.income {
                Some(amount) => Some(amount@),
                None => None,
            },
            match self.birthday {
                Some(text) => Some(text@),
                None => None,
            },
            now,
        )
    }

    /// Holds the update against the rules for it at the moment `now`, in
    /// seconds since the epoch.
    pub fn validate(&self, now: i64) -> (r: Result<(), String>)
        ensures
            finding(r) == self.violation(now as int),
    {
        validate_particulars(
            self.email.as_ref(),
            self.password.as_ref(),
            self.first_name.as_ref(),
            self.last_name.as_ref(),
            self.income.as_ref(),
            self.birthday.as_ref(),
            now,
        )
    }
}

} // verus!
