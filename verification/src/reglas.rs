use vstd::prelude::*;
use crate::config::Config;
use crate::error::Error;
use crate::evento::{Event, EventView};
use crate::moneda::RetiroView;
use crate::nombre::nombre_validado;
use crate::origen::{firmante, Origen};

verus! {

/// What registering `nombre` makes of the pools: the pools with an empty one
/// for the new project, or the reason why the call is refused. The caller
/// must have signed, the name must pass the checks on length, and no project
/// of that name may be registered yet.
pub open spec fn proyecto_creado<A>(
    config: Config,
    saldos: Map<Seq<u8>, u128>,
    origen: Origen<A>,
    nombre: Seq<u8>,
) -> Result<Map<Seq<u8>, u128>, Error> {
    if firmante(origen) is None {
        Err(Error::OrigenNoFirmado)
    } else {
        match nombre_validado(config, nombre) {
            Err(e) => Err(e),
            Ok(validado) => if saldos.contains_key(validado) {
                Err(Error::ProyectoYaExiste)
            } else {
                Ok(saldos.insert(validado, 0))
            },
        }
    }
}

/// Who contributes and to which registered project: the signer and the
/// name, or the reason why the call is refused before the ledger is looked
/// at. The caller must have signed, the name must pass the checks on length,
/// and a project of that name must be registered.
pub open spec fn proyecto_localizado<A>(
    config: Config,
    saldos: Map<Seq<u8>, u128>,
    origen: Origen<A>,
    nombre: Seq<u8>,
) -> Result<(A, Seq<u8>), Error> {
    match firmante(origen) {
        None => Err(Error::OrigenNoFirmado),
        Some(quien) => match nombre_validado(config, nombre) {
            Err(e) => Err(e),
            Ok(validado) => if saldos.contains_key(validado) {
                Ok((quien, validado))
            } else {
                Err(Error::ProyectoNoExiste)
            },
        },
    }
}

/// Whether a contribution may go ahead, given what the caller can spend:
/// the debit to ask the ledger for, or the reason why the call is refused.
/// Once the signer and the project are found, the signer must be able to
/// spend the amount, and the pool must be able to hold it on top of what it
/// holds. The debit is of exactly the amount, from the signer, whose account
/// must stay alive.
pub open spec fn apoyo_autorizado<A>(
    config: Config,
    saldos: Map<Seq<u8>, u128>,
    origen: Origen<A>,
    nombre: Seq<u8>,
    cantidad: u128,
    saldo_libre: u128,
) -> Result<RetiroView<A>, Error> {
    match proyecto_localizado(config, saldos, origen, nombre) {
        Err(e) => Err(e),
        Ok((quien, validado)) => if saldo_libre < cantidad {
            Err(Error::FondosInsuficientes)
        } else if saldos[validado] + cantidad > u128::MAX {
            Err(Error::DesbordeAritmetico)
        } else {
            Ok(RetiroView { quien, nombre: validado, cantidad, mantener_viva: true })
        },
    }
}

/// What the answer of the ledger to a debit makes of the pools: where the
/// ledger refused, the call is refused for the same reason; where it took
/// the amount, the pool of the project holds that much more.
pub open spec fn apoyo_liquidado(
    saldos: Map<Seq<u8>, u128>,
    nombre: Seq<u8>,
    cantidad: u128,
    retiro: Result<(), Error>,
) -> Result<Map<Seq<u8>, u128>, Error> {
    match retiro {
        Err(e) => Err(e),
        Ok(_) => if !saldos.contains_key(nombre) {
            Err(Error::ProyectoNoExiste)
        } else if saldos[nombre] + cantidad > u128::MAX {
            Err(Error::DesbordeAritmetico)
        } else {
            Ok(saldos.insert(nombre, (saldos[nombre] + cantidad) as u128))
        },
    }
}

/// What a contribution makes of the pools, given what the caller can spend
/// and what the ledger answers to the debit, should it be asked.
pub open spec fn proyecto_apoyado<A>(
    config: Config,
    saldos: Map<Seq<u8>, u128>,
    origen: Origen<A>,
    nombre: Seq<u8>,
    cantidad: u128,
    saldo_libre: u128,
    retiro: Result<(), Error>,
) -> Result<Map<Seq<u8>, u128>, Error> {
    match apoyo_autorizado(config, saldos, origen, nombre, cantidad, saldo_libre) {
        Err(e) => Err(e),
        Ok(pedido) => apoyo_liquidado(saldos, pedido.nombre, pedido.cantidad, retiro),
    }
}

/// The pools after a call: those that the call made, or the ones before it
/// where it was refused.
pub open spec fn saldos_tras(
    antes: Map<Seq<u8>, u128>,
    resultado: Result<Map<Seq<u8>, u128>, Error>,
) -> Map<Seq<u8>, u128> {
    match resultado {
        Ok(saldos) => saldos,
        Err(_) => antes,
    }
}

/// Whether a contribution ended as the rules say, where the caller could
/// spend `saldo_libre` and the ledger answered `retiro` to the debit, should
/// it have been asked: the pools after the call are `despues`, and the
/// call returned `r`.
pub open spec fn apoyo_resuelto<A>(
    config: Config,
    antes: Map<Seq<u8>, u128>,
    origen: Origen<A>,
    nombre: Seq<u8>,
    cantidad: u128,
    saldo_libre: u128,
    retiro: Result<(), Error>,
    despues: Map<Seq<u8>, u128>,
    r: Result<Event<A>, Error>,
) -> bool {
    let resultado = proyecto_apoyado(config, antes, origen, nombre, cantidad, saldo_libre, retiro);
    &&& despues == saldos_tras(antes, resultado)
    &&& match resultado {
        Ok(_) => r matches Ok(evento) && evento@ == (EventView::<A>::ProyectoApoyado {
            nombre,
            cantidad,
        }),
        Err(e) => r == Err::<Event<A>, Error>(e),
    }
}

} // verus!
