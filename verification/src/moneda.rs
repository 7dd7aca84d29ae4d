use vstd::prelude::*;
use crate::error::Error;
use crate::nombre::NombreProyecto;

verus! {

/// The ledger of account balances, which the host supplies. Nothing is
/// assumed of it: the pallet is verified for whatever its calls return.
pub trait Currency<A> {
    /// What `quien` can spend.
    fn free_balance(&self, quien: &A) -> u128;

    /// Takes `cantidad` out of the balance of `quien`, or refuses and takes
    /// nothing. With `mantener_viva` the account must stay alive afterwards.
    fn withdraw(&mut self, quien: &A, cantidad: u128, mantener_viva: bool) -> Result<(), Error>;
}

/// A debit that the ledger is asked to make for a contribution: `cantidad`
/// out of the balance of `quien`, for the pool of `nombre`. With
/// `mantener_viva` the account must stay alive afterwards.
#[derive(Clone, Debug, PartialEq, Eq)]
pub struct Retiro<A> {
    pub quien: A,
    pub nombre: NombreProyecto,
    pub cantidad: u128,
    pub mantener_viva: bool,
}

/// A debit with the name taken as its bytes.
pub ghost struct RetiroView<A> {
    pub quien: A,
    pub nombre: Seq<u8>,
    pub cantidad: u128,
    pub mantener_viva: bool,
}

impl<A> View for Retiro<A> {
    type V = RetiroView<A>;

    open spec fn view(&self) -> RetiroView<A> {
        RetiroView {
            quien: self.quien,
            nombre: self.nombre@,
            cantidad: self.cantidad,
            mantener_viva: self.mantener_viva,
        }
    }
}

} // verus!
