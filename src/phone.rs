use vstd::prelude::*;

use crate::error::TelecheckerError;

verus! {

/// Whether the phone-number parser accepts `s` as a number, with no default
/// region (international form).
pub uninterp spec fn parses_as_phone_number(s: Seq<char>) -> bool;

/// Relies on `phonenumber::parse(None, s)`: whether it returns `Ok` depends on
/// the text alone (the metadata database is compiled into the crate).
#[verifier::external_body]
fn phone_number_parses(s: &str) -> (r: bool)
    ensures
        r == parses_as_phone_number(s@),
{
    phonenumber::parse(None, s).is_ok()
}

/// Checks that `user_phone` is a phone number in international form.
pub fn validate(user_phone: &str) -> (r: Result<(), TelecheckerError>)
    ensures
        r is Ok <==> parses_as_phone_number(user_phone@),
        r is Err ==> r == Err::<(), TelecheckerError>(TelecheckerError::InvalidPhoneFormat),
{
    if phone_number_parses(user_phone) {
        Ok(())
    } else {
        Err(TelecheckerError::InvalidPhoneFormat)
    }
}

} // verus!
