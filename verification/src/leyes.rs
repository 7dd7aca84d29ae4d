use vstd::prelude::*;
use crate::config::Config;
use crate::error::Error;
use crate::moneda::RetiroView;
use crate::nombre::nombre_validado;
use crate::origen::{firmante, Origen};
use crate::reglas::{
    apoyo_autorizado, apoyo_liquidado, proyecto_apoyado, proyecto_creado, saldos_tras,
};
use crate::proyectos::{nombres_en_limites, saldo_de};

verus! {

/// A name passes the checks on length exactly where its length lies within
/// the bounds, and then it is kept byte for byte; one that fails them is
/// refused as too short or as too long.
pub proof fn nombre_valido_segun_largo(config: Config, nombre: Seq<u8>)
    ensures
        nombre_validado(config, nombre) is Ok <==> config.largo_minimo() <= nombre.len()
            <= config.largo_maximo(),
        nombre_validado(config, nombre) is Ok ==> nombre_validado(config, nombre) == Ok::<
            Seq<u8>,
            Error,
        >(nombre),
        nombre_validado(config, nombre) matches Err(e) ==> e == Error::NombreMuyCorto || e
            == Error::NombreMuyLargo,
{
}

/// A signed caller cannot register a name that is shorter than the minimum:
/// the call is refused as too short, and no pool is made or changed.
pub proof fn nombre_corto_rechazado<A>(
    config: Config,
    saldos: Map<Seq<u8>, u128>,
    origen: Origen<A>,
    nombre: Seq<u8>,
)
    requires
        firmante(origen) is Some,
        nombre.len() < config.largo_minimo(),
    ensures
        proyecto_creado(config, saldos, origen, nombre) == Err::<Map<Seq<u8>, u128>, Error>(
            Error::NombreMuyCorto,
        ),
        saldos_tras(saldos, proyecto_creado(config, saldos, origen, nombre)) == saldos,
{
}

/// A signed caller cannot register a name that is longer than the maximum:
/// the call is refused as too long, and no pool is made or changed.
pub proof fn nombre_largo_rechazado<A>(
    config: Config,
    saldos: Map<Seq<u8>, u128>,
    origen: Origen<A>,
    nombre: Seq<u8>,
)
    requires
        config.valida(),
        firmante(origen) is Some,
        nombre.len() > config.largo_maximo(),
    ensures
        proyecto_creado(config, saldos, origen, nombre) == Err::<Map<Seq<u8>, u128>, Error>(
            Error::NombreMuyLargo,
        ),
        saldos_tras(saldos, proyecto_creado(config, saldos, origen, nombre)) == saldos,
{
}

/// A signed caller registers a name whose length lies within the bounds and
/// that is not registered yet: afterwards its pool is there and holds
/// nothing, and every other pool is as it was.
pub proof fn proyecto_nuevo_vacio<A>(
    config: Config,
    saldos: Map<Seq<u8>, u128>,
    origen: Origen<A>,
    nombre: Seq<u8>,
)
    requires
        firmante(origen) is Some,
        config.largo_minimo() <= nombre.len() <= config.largo_maximo(),
        !saldos.contains_key(nombre),
    ensures
        proyecto_creado(config, saldos, origen, nombre) == Ok::<Map<Seq<u8>, u128>, Error>(
            saldos.insert(nombre, 0),
        ),
        saldo_de(saldos_tras(saldos, proyecto_creado(config, saldos, origen, nombre)), nombre)
            == 0,
        forall|otro: Seq<u8>|
            otro != nombre ==> saldos_tras(
                saldos,
                proyecto_creado(config, saldos, origen, nombre),
            ).contains_key(otro) == saldos.contains_key(otro) && saldo_de(
                saldos_tras(saldos, proyecto_creado(config, saldos, origen, nombre)),
                otro,
            ) == #[trigger] saldo_de(saldos, otro),
{
}

/// Registering a name again is refused, with an error of its own, and the
/// pool keeps what was contributed to it.
pub proof fn proyecto_repetido_rechazado<A>(
    config: Config,
    saldos: Map<Seq<u8>, u128>,
    origen: Origen<A>,
    nombre: Seq<u8>,
)
    requires
        firmante(origen) is Some,
        nombres_en_limites(config, saldos),
        saldos.contains_key(nombre),
    ensures
        proyecto_creado(config, saldos, origen, nombre) == Err::<Map<Seq<u8>, u128>, Error>(
            Error::ProyectoYaExiste,
        ),
        saldos_tras(saldos, proyecto_creado(config, saldos, origen, nombre)) == saldos,
{
}

/// A contribution to a name that is not registered is refused before the
/// ledger is asked for anything, whatever the caller can spend, and no pool
/// changes. Where the caller signed and the name passes the checks on length,
/// the reason is that the project does not exist.
pub proof fn apoyo_sin_proyecto_rechazado<A>(
    config: Config,
    saldos: Map<Seq<u8>, u128>,
    origen: Origen<A>,
    nombre: Seq<u8>,
    cantidad: u128,
    saldo_libre: u128,
    retiro: Result<(), Error>,
)
    requires
        !saldos.contains_key(nombre),
    ensures
        apoyo_autorizado(config, saldos, origen, nombre, cantidad, saldo_libre) is Err,
        proyecto_apoyado(config, saldos, origen, nombre, cantidad, saldo_libre, retiro) is Err,
        saldos_tras(
            saldos,
            proyecto_apoyado(config, saldos, origen, nombre, cantidad, saldo_libre, retiro),
        ) == saldos,
        firmante(origen) is Some && nombre_validado(config, nombre) is Ok ==> proyecto_apoyado(
            config,
            saldos,
            origen,
            nombre,
            cantidad,
            saldo_libre,
            retiro,
        ) == Err::<Map<Seq<u8>, u128>, Error>(Error::ProyectoNoExiste),
{
}

/// A contribution of more than the caller can spend is refused before the
/// ledger is asked for anything, and no pool changes. Where the caller
/// signed and the project is registered, the reason is that the funds do not
/// suffice.
pub proof fn apoyo_sin_fondos_rechazado<A>(
    config: Config,
    saldos: Map<Seq<u8>, u128>,
    origen: Origen<A>,
    nombre: Seq<u8>,
    cantidad: u128,
    saldo_libre: u128,
    retiro: Result<(), Error>,
)
    requires
        cantidad > saldo_libre,
    ensures
        apoyo_autorizado(config, saldos, origen, nombre, cantidad, saldo_libre) is Err,
        proyecto_apoyado(config, saldos, origen, nombre, cantidad, saldo_libre, retiro) is Err,
        saldos_tras(
            saldos,
            proyecto_apoyado(config, saldos, origen, nombre, cantidad, saldo_libre, retiro),
        ) == saldos,
        firmante(origen) is Some && nombres_en_limites(config, saldos) && saldos.contains_key(
            nombre,
        ) ==> proyecto_apoyado(config, saldos, origen, nombre, cantidad, saldo_libre, retiro)
            == Err::<Map<Seq<u8>, u128>, Error>(Error::FondosInsuficientes),
{
}

/// The debit and the credit of a contribution go together. A contribution
/// that succeeds was debited, of a caller who could spend the amount, and
/// puts exactly the amount on top of what the pool held; every other pool
/// is as it was. Where the ledger refuses the debit, the contribution is
/// refused for the same reason and no pool changes.
pub proof fn apoyo_debitado_y_acreditado<A>(
    config: Config,
    saldos: Map<Seq<u8>, u128>,
    origen: Origen<A>,
    nombre: Seq<u8>,
    cantidad: u128,
    saldo_libre: u128,
    retiro: Result<(), Error>,
)
    ensures
        proyecto_apoyado(config, saldos, origen, nombre, cantidad, saldo_libre, retiro)
            matches Ok(despues) ==> {
            &&& retiro is Ok
            &&& saldo_libre >= cantidad
            &&& saldos.contains_key(nombre)
            &&& apoyo_autorizado(config, saldos, origen, nombre, cantidad, saldo_libre) == Ok::<
                RetiroView<A>,
                Error,
            >(
                RetiroView {
                    quien: firmante(origen).unwrap(),
                    nombre,
                    cantidad,
                    mantener_viva: true,
                },
            )
            &&& despues == saldos.insert(nombre, (saldos[nombre] + cantidad) as u128)
            &&& saldo_de(despues, nombre) == saldo_de(saldos, nombre) + cantidad
        },
        retiro is Err && apoyo_autorizado(
            config,
            saldos,
            origen,
            nombre,
            cantidad,
            saldo_libre,
        ) is Ok ==> proyecto_apoyado(config, saldos, origen, nombre, cantidad, saldo_libre, retiro)
            == Err::<Map<Seq<u8>, u128>, Error>(retiro->Err_0),
        retiro is Err ==> saldos_tras(
            saldos,
            proyecto_apoyado(config, saldos, origen, nombre, cantidad, saldo_libre, retiro),
        ) == saldos,
{
}

/// A contribution succeeds where nothing stands against it: the caller
/// signed, the project is registered, the caller can spend the amount, the
/// pool can hold it, and the ledger made the debit. And a debit that was
/// allowed and made is always credited, on the pools it was allowed on.
pub proof fn apoyo_debido<A>(
    config: Config,
    saldos: Map<Seq<u8>, u128>,
    origen: Origen<A>,
    nombre: Seq<u8>,
    cantidad: u128,
    saldo_libre: u128,
)
    requires
        nombres_en_limites(config, saldos),
    ensures
        firmante(origen) is Some && saldos.contains_key(nombre) && saldo_libre >= cantidad
            && saldos[nombre] + cantidad <= u128::MAX ==> proyecto_apoyado(
            config,
            saldos,
            origen,
            nombre,
            cantidad,
            saldo_libre,
            Ok::<(), Error>(()),
        ) == Ok::<Map<Seq<u8>, u128>, Error>(
            saldos.insert(nombre, (saldos[nombre] + cantidad) as u128),
        ),
        apoyo_autorizado(config, saldos, origen, nombre, cantidad, saldo_libre) matches Ok(
            pedido,
        ) ==> apoyo_liquidado(saldos, pedido.nombre, pedido.cantidad, Ok::<(), Error>(())) is Ok,
{
}

/// No call unregisters a project or takes anything out of a pool, and
/// every name that is registered after a call passes the checks on length
/// if those before it did.
pub proof fn registro_solo_crece<A>(
    config: Config,
    saldos: Map<Seq<u8>, u128>,
    origen: Origen<A>,
    nombre: Seq<u8>,
    cantidad: u128,
    saldo_libre: u128,
    retiro: Result<(), Error>,
)
    requires
        nombres_en_limites(config, saldos),
    ensures
        ({
            let creado = saldos_tras(saldos, proyecto_creado(config, saldos, origen, nombre));
            &&& nombres_en_limites(config, creado)
            &&& forall|otro: Seq<u8>| #[trigger]
                saldos.contains_key(otro) ==> creado.contains_key(otro) && creado[otro]
                    == saldos[otro]
        }),
        ({
            let apoyado = saldos_tras(
                saldos,
                proyecto_apoyado(config, saldos, origen, nombre, cantidad, saldo_libre, retiro),
            );
            &&& apoyado.dom() == saldos.dom()
            &&& forall|otro: Seq<u8>| #[trigger]
                saldos.contains_key(otro) ==> apoyado[otro] >= saldos[otro]
        }),
{
    let apoyado = saldos_tras(
        saldos,
        proyecto_apoyado(config, saldos, origen, nombre, cantidad, saldo_libre, retiro),
    );
    assert(apoyado.dom() =~= saldos.dom());
}

} // verus!
