//! Account, authentication and start-up logic of the collabs-code web service,
//! with each decision stated as a contract and proved.

pub mod errors;
pub mod validation;
pub mod dtos;
pub mod helper;
pub mod account;
pub mod oidc;
pub mod settings;
pub mod database;

use vstd::prelude::*;

verus! {

/// An optional string by its characters.
pub open spec fn opt_view(o: Option<String>) -> Option<Seq<char>> {
    match o {
        Some(s) => Some(s@),
        None => None,
    }
}

} // verus!
