//! Configuration inputs: the cookies file check, the playlist file format and
//! the settings with their defaults.
use vstd::prelude::*;

pub mod cookies;
pub mod playlist;
pub mod settings;

verus! {

/// `std::io::Error`, carried by the error variants that report a failed read.
#[verifier::external_type_specification]
#[verifier::external_body]
pub struct ExIoError(std::io::Error);

} // verus!
