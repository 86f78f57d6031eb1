//! The two conversions, one record at a time. Each is total and reads nothing
//! but its argument.
use vstd::prelude::*;
use crate::extras::{
    bracketed, favourite_note, join_present, lemma_join_one, lemma_join_two, reprompt_note, texts,
};
use crate::records::{or_empty, text, Bitwarden, BitwardenView, OnePassword, OnePasswordView};

verus! {

/// The `extras` column of a ten-column row made from a twelve-column one: the
/// annotation of `favorite`, then that of `reprompt`, each only if the column
/// is present, with a comma and a space between the two.
pub open spec fn forward_extras(favorite: Option<Seq<char>>, reprompt: Option<Seq<char>>) -> Seq<
    char,
> {
    match (favorite, reprompt) {
        (Some(f), Some(p)) => favourite_note(f) + ", "@ + reprompt_note(p),
        (Some(f), None) => favourite_note(f),
        (None, Some(p)) => reprompt_note(p),
        (None, None) => Seq::empty(),
    }
}

/// The `extras` column of a twelve-column row made from a ten-column one: the
/// source's `extras` where it has one, else the empty text.
pub open spec fn reverse_extras(extras: Option<Seq<char>>) -> Seq<char> {
    or_empty(extras)
}

/// The ten-column row that stands for a twelve-column one. `type`, `fields`
/// and the source's own `extras` have no place in it.
pub open spec fn to_1password(r: BitwardenView) -> OnePasswordView {
    OnePasswordView {
        Title: r.name,
        Url: r.login_uri,
        Username: r.login_username,
        Password: r.login_password,
        OTPAuth: r.login_totp,
        Favorite: None,
        Archived: None,
        Tags: r.folder,
        Notes: r.notes,
        extras: Some(forward_extras(r.favorite, r.reprompt)),
    }
}

/// The twelve-column row that stands for a ten-column one. `Archived` has no
/// place in it, and an absent `Favorite` becomes the empty text.
pub open spec fn to_bitwarden(r: OnePasswordView) -> BitwardenView {
    BitwardenView {
        folder: r.Tags,
        favorite: Some(or_empty(r.Favorite)),
        type_field: None,
        name: r.Title,
        notes: r.Notes,
        fields: None,
        reprompt: None,
        login_uri: r.Url,
        login_username: r.Username,
        login_password: r.Password,
        login_totp: r.OTPAuth,
        extras: Some(reverse_extras(r.extras)),
    }
}

/// The text of a column, or the empty string where the column is absent.
pub fn text_or_empty(field: Option<String>) -> (r: String)
    ensures
        r@ == or_empty(text(field)),
{
    match field {
        Some(s) => s,
        None => String::new(),
    }
}

/// Maps a twelve-column row to a ten-column one.
///
/// `name`, `login_uri`, `login_username`, `login_password`, `login_totp`,
/// `folder` and `notes` go to `Title`, `Url`, `Username`, `Password`,
/// `OTPAuth`, `Tags` and `Notes` unchanged, absent where they were absent.
/// `Favorite` and `Archived` are absent. `extras` is always present and holds
/// the annotations of `favorite` and `reprompt`.
pub fn convert_bitwarden_to_1password(record: Bitwarden) -> (r: OnePassword)
    ensures
        r@ == to_1password(record@),
        r@.Title == record@.name,
        r@.Url == record@.login_uri,
        r@.Username == record@.login_username,
        r@.Password == record@.login_password,
        r@.OTPAuth == record@.login_totp,
        r@.Tags == record@.folder,
        r@.Notes == record@.notes,
        r@.Favorite is None,
        r@.Archived is None,
        r@.extras == Some(forward_extras(record@.favorite, record@.reprompt)),
{
    let favourite = match &record.favorite {
        Some(f) => Some(bracketed("[favourite:", f.as_str())),
        None => None,
    };
    let reprompt = match &record.reprompt {
        Some(p) => Some(bracketed("[reprompt:", p.as_str())),
        None => None,
    };
    let mut notes: Vec<Option<String>> = Vec::new();
    notes.push(favourite);
    notes.push(reprompt);
    let extras = join_present(&notes, ", ");
    proof {
        assert(texts(notes@) =~= seq![text(favourite), text(reprompt)]);
        lemma_join_two(text(favourite), text(reprompt), ", "@);
    }
    OnePassword {
        Title: record.name,
        Url: record.login_uri,
        Username: record.login_username,
        Password: record.login_password,
        OTPAuth: record.login_totp,
        Favorite: None,
        Archived: None,
        Tags: record.folder,
        Notes: record.notes,
        extras: Some(extras),
    }
}

/// Maps a ten-column row to a twelve-column one.
///
/// `Title`, `Url`, `Username`, `Password`, `OTPAuth`, `Tags` and `Notes` go to
/// `name`, `login_uri`, `login_username`, `login_password`, `login_totp`,
/// `folder` and `notes` unchanged, absent where they were absent. `favorite`
/// and `extras` are always present: each holds the source's `Favorite` or
/// `extras`, or the empty text where the source has none. `type`, `fields` and
/// `reprompt` are absent.
pub fn convert_1password_to_bitwarden(record: OnePassword) -> (r: Bitwarden)
    ensures
        r@ == to_bitwarden(record@),
        r@.name == record@.Title,
        r@.login_uri == record@.Url,
        r@.login_username == record@.Username,
        r@.login_password == record@.Password,
        r@.login_totp == record@.OTPAuth,
        r@.folder == record@.Tags,
        r@.notes == record@.Notes,
        r@.favorite == Some(or_empty(record@.Favorite)),
        r@.extras == Some(reverse_extras(record@.extras)),
        r@.type_field is None,
        r@.fields is None,
        r@.reprompt is None,
{
    let ghost source = text(record.extras);
    let mut notes: Vec<Option<String>> = Vec::new();
    notes.push(record.extras);
    let extras = join_present(&notes, ", ");
    proof {
        assert(texts(notes@) =~= seq![source]);
        lemma_join_one(source, ", "@);
    }
    let favorite = text_or_empty(record.Favorite);
    Bitwarden {
        folder: record.Tags,
        favorite: Some(favorite),
        type_field: None,
        name: record.Title,
        notes: record.Notes,
        fields: None,
        reprompt: None,
        login_uri: record.Url,
        login_username: record.Username,
        login_password: record.Password,
        login_totp: record.OTPAuth,
        extras: Some(extras),
    }
}

} // verus!
