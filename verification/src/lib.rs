//! Project registry and funding rules of a small crowdfunding ledger.
//!
//! Any signed caller may register a named project; other callers then move
//! funds from their own balance into the pool of a registered project. The
//! balances of the accounts live in a ledger that the host supplies; this
//! crate owns the pools, the rules on names, and the order in which a
//! contribution is checked, debited and credited.
//!
//! [`reglas`] states the rules as functions on the pools, [`pallet`] holds
//! the ledger that follows them, and [`leyes`] proves what the rules imply.
//! [`nombre`] and [`proyectos`] hold the validated name and the registry,
//! [`moneda`] what the ledger of balances is asked for.

pub mod config;
pub mod error;
pub mod evento;
pub mod leyes;
pub mod moneda;
pub mod nombre;
pub mod origen;
pub mod pallet;
pub mod proyectos;
pub mod reglas;

pub use config::Config;
pub use error::Error;
pub use evento::{Event, EventView};
pub use moneda::{Currency, Retiro, RetiroView};
pub use origen::{ensure_signed, Origen};
pub use pallet::Pallet;
pub use proyectos::Proyectos;
pub use nombre::NombreProyecto;
