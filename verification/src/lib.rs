//! Field mapping between two flat password-manager export schemas.
//!
//! A [`Bitwarden`] record has twelve optional text columns, a [`OnePassword`]
//! record has ten. The two conversions in [`mapper`] turn one record of
//! either schema into one record of the other, column by column; columns with
//! no counterpart are folded into the free-text `extras` column or dropped.
#![allow(non_snake_case)]

pub mod records;
pub mod extras;
pub mod mapper;
pub mod laws;

pub use records::{Bitwarden, BitwardenView, OnePassword, OnePasswordView};
pub use mapper::{convert_1password_to_bitwarden, convert_bitwarden_to_1password};
