//! The two record schemas and their mathematical views.
use vstd::prelude::*;

verus! {

/// What a column holds, as the contracts see it: nothing, or its characters.
pub open spec fn text(field: Option<String>) -> Option<Seq<char>> {
    match field {
        Some(s) => Some(s@),
        None => None,
    }
}

/// A column's text, or the empty text where the column is absent.
pub open spec fn or_empty(field: Option<Seq<char>>) -> Seq<char> {
    match field {
        Some(s) => s,
        None => Seq::empty(),
    }
}

/// One row of the twelve-column schema. Every column is optional text; the
/// column that the file calls `type` is held in `type_field`.
#[derive(Debug, Clone, PartialEq, Eq, Default)]
pub struct Bitwarden {
    pub folder: Option<String>,
    pub favorite: Option<String>,
    pub type_field: Option<String>,
    pub name: Option<String>,
    pub notes: Option<String>,
    pub fields: Option<String>,
    pub reprompt: Option<String>,
    pub login_uri: Option<String>,
    pub login_username: Option<String>,
    pub login_password: Option<String>,
    pub login_totp: Option<String>,
    pub extras: Option<String>,
}

/// A [`Bitwarden`] row with each column as a sequence of characters.
pub struct BitwardenView {
    pub folder: Option<Seq<char>>,
    pub favorite: Option<Seq<char>>,
    pub type_field: Option<Seq<char>>,
    pub name: Option<Seq<char>>,
    pub notes: Option<Seq<char>>,
    pub fields: Option<Seq<char>>,
    pub reprompt: Option<Seq<char>>,
    pub login_uri: Option<Seq<char>>,
    pub login_username: Option<Seq<char>>,
    pub login_password: Option<Seq<char>>,
    pub login_totp: Option<Seq<char>>,
    pub extras: Option<Seq<char>>,
}

impl View for Bitwarden {
    type V = BitwardenView;

    open spec fn view(&self) -> BitwardenView {
        BitwardenView {
            folder: text(self.folder),
            favorite: text(self.favorite),
            type_field: text(self.type_field),
            name: text(self.name),
            notes: text(self.notes),
            fields: text(self.fields),
            reprompt: text(self.reprompt),
            login_uri: text(self.login_uri),
            login_username: text(self.login_username),
            login_password: text(self.login_password),
            login_totp: text(self.login_totp),
            extras: text(self.extras),
        }
    }
}

/// One row of the ten-column schema. Every column is optional text, and the
/// fields carry the capitalised names that the file's header row uses.
#[derive(Debug, Clone, PartialEq, Eq, Default)]
pub struct OnePassword {
    pub Title: Option<String>,
    pub Url: Option<String>,
    pub Username: Option<String>,
    pub Password: Option<String>,
    pub OTPAuth: Option<String>,
    pub Favorite: Option<String>,
    pub Archived: Option<String>,
    pub Tags: Option<String>,
    pub Notes: Option<String>,
    pub extras: Option<String>,
}

/// A [`OnePassword`] row with each column as a sequence of characters.
pub struct OnePasswordView {
    pub Title: Option<Seq<char>>,
    pub Url: Option<Seq<char>>,
    pub Username: Option<Seq<char>>,
    pub Password: Option<Seq<char>>,
    pub OTPAuth: Option<Seq<char>>,
    pub Favorite: Option<Seq<char>>,
    pub Archived: Option<Seq<char>>,
    pub Tags: Option<Seq<char>>,
    pub Notes: Option<Seq<char>>,
    pub extras: Option<Seq<char>>,
}

impl View for OnePassword {
    type V = OnePasswordView;

    open spec fn view(&self) -> OnePasswordView {
        OnePasswordView {
            Title: text(self.Title),
            Url: text(self.Url),
            Username: text(self.Username),
            Password: text(self.Password),
            OTPAuth: text(self.OTPAuth),
            Favorite: text(self.Favorite),
            Archived: text(self.Archived),
            Tags: text(self.Tags),
            Notes: text(self.Notes),
            extras: text(self.extras),
        }
    }
}

} // verus!
