//! What holds of the conversions beyond each one's own contract: when the
//! annotations are empty, and which columns survive a trip to the other schema
//! and back.
use vstd::prelude::*;
use crate::extras::favourite_note;
use crate::mapper::{forward_extras, reverse_extras, to_1password, to_bitwarden};
use crate::records::{or_empty, BitwardenView, OnePasswordView};

verus! {

/// The `extras` made from a twelve-column row is empty exactly when the row
/// has neither `favorite` nor `reprompt`: an annotation is never empty, even
/// of an empty value.
pub proof fn lemma_forward_extras_empty(favorite: Option<Seq<char>>, reprompt: Option<Seq<char>>)
    ensures
        forward_extras(favorite, reprompt).len() == 0 <==> favorite is None && reprompt is None,
{
    reveal_strlit("[favourite:");
    reveal_strlit("[reprompt:");
}

/// A twelve-column row taken to the ten-column schema and back keeps `name`,
/// `notes`, `folder` and the four login columns. It loses `type`, `fields`
/// and `reprompt`, which come back absent; `favorite` comes back as the empty
/// text whatever it was; and `extras` comes back as the annotations of the
/// `favorite` and `reprompt` it had, not as the `extras` it had.
pub proof fn lemma_bitwarden_round_trip(r: BitwardenView)
    ensures
        ({
            let back = to_bitwarden(to_1password(r));
            &&& back.name == r.name
            &&& back.notes == r.notes
            &&& back.folder == r.folder
            &&& back.login_uri == r.login_uri
            &&& back.login_username == r.login_username
            &&& back.login_password == r.login_password
            &&& back.login_totp == r.login_totp
            &&& back.type_field is None
            &&& back.fields is None
            &&& back.reprompt is None
            &&& back.favorite == Some(Seq::<char>::empty())
            &&& back.extras == Some(forward_extras(r.favorite, r.reprompt))
        }),
{
}

/// A ten-column row taken to the twelve-column schema and back keeps `Title`,
/// `Url`, `Username`, `Password`, `OTPAuth`, `Tags` and `Notes`. It loses
/// `Favorite` and `Archived`, which come back absent; and `extras` comes back
/// as the annotation of the `Favorite` it had (of the empty text where there
/// was none), not as the `extras` it had.
pub proof fn lemma_1password_round_trip(r: OnePasswordView)
    ensures
        ({
            let back = to_1password(to_bitwarden(r));
            &&& back.Title == r.Title
            &&& back.Url == r.Url
            &&& back.Username == r.Username
            &&& back.Password == r.Password
            &&& back.OTPAuth == r.OTPAuth
            &&& back.Tags == r.Tags
            &&& back.Notes == r.Notes
            &&& back.Favorite is None
            &&& back.Archived is None
            &&& back.extras == Some(favourite_note(or_empty(r.Favorite)))
        }),
{
}

/// The trip from the twelve-column schema and back gives the row it started
/// from only for a row without `type`, `fields` and `reprompt`, with an empty
/// `favorite`, and whose `extras` already is the annotation of that empty
/// `favorite`. Every other row comes back changed.
pub proof fn lemma_bitwarden_round_trip_fixed_points(r: BitwardenView)
    ensures
        to_bitwarden(to_1password(r)) == r <==> {
            &&& r.type_field is None
            &&& r.fields is None
            &&& r.reprompt is None
            &&& r.favorite == Some(Seq::<char>::empty())
            &&& r.extras == Some(favourite_note(Seq::<char>::empty()))
        },
{
}

/// The trip from the ten-column schema and back gives the row it started from
/// only for a row without `Favorite` and `Archived` whose `extras` already is
/// the annotation of an empty favourite. Every other row comes back changed.
pub proof fn lemma_1password_round_trip_fixed_points(r: OnePasswordView)
    ensures
        to_1password(to_bitwarden(r)) == r <==> {
            &&& r.Favorite is None
            &&& r.Archived is None
            &&& r.extras == Some(favourite_note(Seq::<char>::empty()))
        },
{
}

/// Whatever the twelve-column row, the `extras` that the reverse conversion
/// makes of the forward conversion's `extras` is that `extras` itself.
pub proof fn lemma_reverse_keeps_forward_extras(r: BitwardenView)
    ensures
        to_bitwarden(to_1password(r)).extras == to_1password(r).extras,
        reverse_extras(to_1password(r).extras) == forward_extras(r.favorite, r.reprompt),
{
}

} // verus!
