use vstd::prelude::*;

use crate::error::TelecheckerError;

verus! {

/// What consuming a slot that holds `held` returns.
pub open spec fn consume_result<T>(held: Option<T>) -> Result<T, TelecheckerError> {
    match held {
        Some(v) => Ok(v),
        None => Err(TelecheckerError::RetrievalFailed),
    }
}

/// A value that can be taken out once. Taking it again, or taking from a slot
/// that never held one, fails with `RetrievalFailed` at once.
pub struct SingleUse<T> {
    slot: Option<T>,
}

impl<T> SingleUse<T> {
    /// What the slot still holds.
    pub closed spec fn held(&self) -> Option<T> {
        self.slot
    }

    /// A slot holding `value`.
    pub fn new(value: T) -> (r: SingleUse<T>)
        ensures
            r.held() == Some(value),
    {
        SingleUse { slot: Some(value) }
    }

    /// A slot holding `value` if there is one.
    pub fn from_option(value: Option<T>) -> (r: SingleUse<T>)
        ensures
            r.held() == value,
    {
        SingleUse { slot: value }
    }

    /// Whether a value is still there to take.
    pub fn is_available(&self) -> (r: bool)
        ensures
            r == self.held() is Some,
    {
        self.slot.is_some()
    }

    /// Takes the value out; the slot is empty afterwards.
    pub fn consume(&mut self) -> (r: Result<T, TelecheckerError>)
        ensures
            r == consume_result(old(self).held()),
            final(self).held() is None,
    {
        match self.slot.take() {
            Some(v) => Ok(v),
            None => Err(TelecheckerError::RetrievalFailed),
        }
    }
}

/// The three credential slots of one sign-in attempt, each consumed at most
/// once. With `T = String` they hold values given in advance; with a channel
/// receiver they hold the receiving ends that a UI fills.
pub struct CredentialSlots<T> {
    pub phone: SingleUse<T>,
    pub code: SingleUse<T>,
    pub password: SingleUse<T>,
}

impl<T> CredentialSlots<T> {
    /// Slots holding what is given.
    pub fn new(phone: Option<T>, code: Option<T>, password: Option<T>) -> (r: CredentialSlots<T>)
        ensures
            r.phone.held() == phone,
            r.code.held() == code,
            r.password.held() == password,
    {
        CredentialSlots {
            phone: SingleUse::from_option(phone),
            code: SingleUse::from_option(code),
            password: SingleUse::from_option(password),
        }
    }
}

/// Whatever a slot held, once it has been consumed a second consume fails
/// with `RetrievalFailed` and yields no value.
pub proof fn lemma_second_consume_fails<T>(second: SingleUse<T>)
    requires
        second.held() is None,
    ensures
        consume_result(second.held()) == Err::<T, TelecheckerError>(
            TelecheckerError::RetrievalFailed,
        ),
{
}

} // verus!
