use vstd::prelude::*;
use crate::error::Error;

verus! {

/// Where a call comes from.
#[derive(Clone, Copy, Debug, PartialEq, Eq)]
pub enum Origen<A> {
    /// From the system itself.
    Raiz,
    /// From the account that signed it.
    Firmado(A),
    /// From nobody.
    Ninguno,
    /// From nobody, let through by the runtime.
    Autorizado,
}

/// The account that signed the call, if one did.
pub open spec fn firmante<A>(origen: Origen<A>) -> Option<A> {
    match origen {
        Origen::Firmado(quien) => Some(quien),
        _ => None,
    }
}

/// The account that signed the call; any other origin is refused.
pub fn ensure_signed<A>(origen: Origen<A>) -> (r: Result<A, Error>)
    ensures
        match firmante(origen) {
            Some(quien) => r == Ok::<A, Error>(quien),
            None => r == Err::<A, Error>(Error::OrigenNoFirmado),
        },
{
    match origen {
        Origen::Firmado(quien) => Ok(quien),
        _ => Err(Error::OrigenNoFirmado),
    }
}

} // verus!
