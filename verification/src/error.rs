use vstd::prelude::*;

verus! {

/// Why a call was refused. A refused call leaves every pool as it was.
#[derive(Clone, Copy, Debug, PartialEq, Eq, Structural)]
pub enum Error {
    /// The name is longer than the configured maximum, or than a bounded
    /// name can ever be.
    NombreMuyLargo,
    /// The name is shorter than the configured minimum.
    NombreMuyCorto,
    /// The caller holds less than the amount it wants to contribute.
    FondosInsuficientes,
    /// No project with that name is registered.
    ProyectoNoExiste,
    /// A project with that name is registered already.
    ProyectoYaExiste,
    /// The call does not come from a signed account.
    OrigenNoFirmado,
    /// The pool cannot hold the contribution on top of what it holds.
    DesbordeAritmetico,
    /// The ledger refused to debit the caller.
    RetiroRechazado,
}

} // verus!
