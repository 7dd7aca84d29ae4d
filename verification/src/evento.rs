use vstd::prelude::*;
use crate::nombre::NombreProyecto;

verus! {

/// What a successful call tells the outside world.
#[derive(Clone, Debug, PartialEq, Eq)]
pub enum Event<A> {
    /// `quien` registered the project `nombre`.
    ProyectoCreado { quien: A, nombre: NombreProyecto },
    /// The pool of the project `nombre` grew by `cantidad`.
    ProyectoApoyado { nombre: NombreProyecto, cantidad: u128 },
}

/// An event with each name taken as its bytes.
pub ghost enum EventView<A> {
    ProyectoCreado { quien: A, nombre: Seq<u8> },
    ProyectoApoyado { nombre: Seq<u8>, cantidad: u128 },
}

impl<A> View for Event<A> {
    type V = EventView<A>;

    open spec fn view(&self) -> EventView<A> {
        match *self {
            Event::ProyectoCreado { quien, nombre } => EventView::ProyectoCreado {
                quien,
                nombre: nombre@,
            },
            Event::ProyectoApoyado { nombre, cantidad } => EventView::ProyectoApoyado {
                nombre: nombre@,
                cantidad,
            },
        }
    }
}

} // verus!
