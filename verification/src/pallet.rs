use vstd::prelude::*;
use crate::config::Config;
use crate::error::Error;
use crate::evento::{Event, EventView};
use crate::moneda::{Currency, Retiro, RetiroView};
use crate::nombre::{nombre_validado, NombreProyecto};
use crate::origen::{ensure_signed, firmante, Origen};
use crate::proyectos::{nombres_en_limites, Proyectos};
use crate::reglas::{
    apoyo_autorizado, apoyo_liquidado, apoyo_resuelto, proyecto_creado, proyecto_localizado,
    saldos_tras,
};

verus! {

/// The crowdfunding ledger: the bounds on names and the pool of each
/// registered project.
pub struct Pallet {
    config: Config,
    proyectos: Proyectos,
}

impl Pallet {
    /// The bounds on names.
    pub closed spec fn limites(&self) -> Config {
        self.config
    }

    /// What the pool of each registered project holds.
    pub closed spec fn saldos(&self) -> Map<Seq<u8>, u128> {
        self.proyectos@
    }

    /// Every registered name passes the checks on length.
    #[verifier::type_invariant]
    spec fn bien_formado(self) -> bool {
        nombres_en_limites(self.config, self.proyectos@)
    }

    /// A ledger with these bounds and no project.
    pub fn new(config: Config) -> (pallet: Pallet)
        ensures
            pallet.limites() == config,
            pallet.saldos() == Map::<Seq<u8>, u128>::empty(),
    {
        Pallet { config, proyectos: Proyectos::new() }
    }

    /// A ledger with these bounds and these pools, as they were kept from
    /// an earlier run; `None` where a name among them fails the checks on length.
    pub fn restaurar(config: Config, proyectos: Proyectos) -> (pallet: Option<Pallet>)
        ensures
            pallet is Some <==> nombres_en_limites(config, proyectos@),
            pallet matches Some(p) ==> p.limites() == config && p.saldos() == proyectos@,
    {
        if proyectos.en_limites(&config) {
            Some(Pallet { config, proyectos })
        } else {
            None
        }
    }

    /// The bounds on names.
    pub fn config(&self) -> (config: &Config)
        ensures
            *config == self.limites(),
            config.valida(),
    {
        proof {
            use_type_invariant(&self.config);
        }
        &self.config
    }

    /// The registry, to look pools up in.
    pub fn proyectos(&self) -> (proyectos: &Proyectos)
        ensures
            proyectos@ == self.saldos(),
            nombres_en_limites(self.limites(), self.saldos()),
    {
        proof {
            use_type_invariant(self);
        }
        &self.proyectos
    }

    /// Puts `saldo` into the pool of `nombre`, which passes the checks on length.
    fn fijar_saldo(&mut self, nombre: NombreProyecto, saldo: u128)
        requires
            nombre_validado(old(self).limites(), nombre@) == Ok::<Seq<u8>, Error>(nombre@),
        ensures
            final(self).limites() == old(self).limites(),
            final(self).saldos() == old(self).saldos().insert(nombre@, saldo),
    {
        proof {
            use_type_invariant(&*self);
        }
        let mut proyectos = Proyectos::new();
        std::mem::swap(&mut proyectos, &mut self.proyectos);
        proyectos.insert(nombre, saldo);
        self.proyectos = proyectos;
    }

    /// Registers a project under `nombre`, with an empty pool.
    ///
    /// The call is refused, and every pool stays as it is, where `origen` is
    /// not a signed account, where the name fails the checks on length, and
    /// where a project of that name is registered already: the pool of a
    /// registered project is never reset.
    pub fn crear_proyecto<A>(&mut self, origen: Origen<A>, nombre: Vec<u8>) -> (r: Result<
        Event<A>,
        Error,
    >)
        ensures
            final(self).limites() == old(self).limites(),
            final(self).saldos() == saldos_tras(
                old(self).saldos(),
                proyecto_creado(old(self).limites(), old(self).saldos(), origen, nombre@),
            ),
            match proyecto_creado(old(self).limites(), old(self).saldos(), origen, nombre@) {
                Ok(_) => r matches Ok(evento) && evento@ == (EventView::ProyectoCreado {
                    quien: firmante(origen).unwrap(),
                    nombre: nombre@,
                }),
                Err(e) => r == Err::<Event<A>, Error>(e),
            },
    {
        let quien = match ensure_signed(origen) {
            Ok(quien) => quien,
            Err(e) => {
                return Err(e);
            },
        };
        let nombre = match NombreProyecto::validar(&self.config, nombre) {
            Ok(nombre) => nombre,
            Err(e) => {
                return Err(e);
            },
        };
        if self.proyectos.contains_key(&nombre) {
            return Err(Error::ProyectoYaExiste);
        }
        self.fijar_saldo(nombre.clone(), 0);
        Ok(Event::ProyectoCreado { quien, nombre })
    }

    /// The signer of the call and the registered project that it names.
    fn localizar<A>(&self, origen: Origen<A>, nombre: Vec<u8>) -> (r: Result<
        (A, NombreProyecto),
        Error,
    >)
        ensures
            match proyecto_localizado(self.limites(), self.saldos(), origen, nombre@) {
                Ok((quien, validado)) => r matches Ok((q, n)) && q == quien && n@ == validado,
                Err(e) => r == Err::<(A, NombreProyecto), Error>(e),
            },
    {
        let quien = match ensure_signed(origen) {
            Ok(quien) => quien,
            Err(e) => {
                return Err(e);
            },
        };
        let nombre = match NombreProyecto::validar(&self.config, nombre) {
            Ok(nombre) => nombre,
            Err(e) => {
                return Err(e);
            },
        };
        if !self.proyectos.contains_key(&nombre) {
            return Err(Error::ProyectoNoExiste);
        }
        Ok((quien, nombre))
    }

    /// Whether the signer can spend the amount and the pool can hold it.
    fn autorizar<A>(
        &self,
        quien: A,
        nombre: NombreProyecto,
        cantidad: u128,
        saldo_libre: u128,
    ) -> (r: Result<Retiro<A>, Error>)
        requires
            self.saldos().contains_key(nombre@),
        ensures
            match r {
                Ok(pedido) => saldo_libre >= cantidad && self.saldos()[nombre@] + cantidad
                    <= u128::MAX && pedido@ == (RetiroView {
                    quien,
                    nombre: nombre@,
                    cantidad,
                    mantener_viva: true,
                }),
                Err(e) => if saldo_libre < cantidad {
                    e == Error::FondosInsuficientes
                } else {
                    e == Error::DesbordeAritmetico && self.saldos()[nombre@] + cantidad > u128::MAX
                },
            },
    {
        if saldo_libre < cantidad {
            return Err(Error::FondosInsuficientes);
        }
        if self.proyectos.get(&nombre).checked_add(cantidad).is_none() {
            return Err(Error::DesbordeAritmetico);
        }
        Ok(Retiro { quien, nombre, cantidad, mantener_viva: true })
    }

    /// Decides whether a contribution of `cantidad` to the project `nombre`
    /// may go ahead, where the caller can spend `saldo_libre`. No pool changes.
    ///
    /// Where it may, the result is the debit to ask the ledger for: of
    /// exactly `cantidad`, from the signer, who must stay alive.
    pub fn autorizar_apoyo<A>(
        &self,
        origen: Origen<A>,
        nombre: Vec<u8>,
        cantidad: u128,
        saldo_libre: u128,
    ) -> (r: Result<Retiro<A>, Error>)
        ensures
            match apoyo_autorizado(
                self.limites(),
                self.saldos(),
                origen,
                nombre@,
                cantidad,
                saldo_libre,
            ) {
                Ok(pedido) => r matches Ok(retiro) && retiro@ == pedido,
                Err(e) => r == Err::<Retiro<A>, Error>(e),
            },
    {
        let (quien, nombre) = match self.localizar(origen, nombre) {
            Ok(hallado) => hallado,
            Err(e) => {
                return Err(e);
            },
        };
        self.autorizar(quien, nombre, cantidad, saldo_libre)
    }

    /// Settles a contribution once the ledger has answered the debit.
    ///
    /// Where the ledger refused, the call is refused for the same reason and
    /// every pool stays as it is. Where it took the amount, the pool of the
    /// project grows by it. The pool is looked at afresh: a debit for a
    /// project that is not registered, or that the pool cannot hold, is refused.
    pub fn liquidar_apoyo<A>(&mut self, pedido: Retiro<A>, retiro: Result<(), Error>) -> (r: Result<
        Event<A>,
        Error,
    >)
        ensures
            final(self).limites() == old(self).limites(),
            final(self).saldos() == saldos_tras(
                old(self).saldos(),
                apoyo_liquidado(old(self).saldos(), pedido.nombre@, pedido.cantidad, retiro),
            ),
            match apoyo_liquidado(old(self).saldos(), pedido.nombre@, pedido.cantidad, retiro) {
                Ok(_) => r matches Ok(evento) && evento@ == (EventView::<A>::ProyectoApoyado {
                    nombre: pedido.nombre@,
                    cantidad: pedido.cantidad,
                }),
                Err(e) => r == Err::<Event<A>, Error>(e),
            },
    {
        proof {
            use_type_invariant(&*self);
        }
        if let Err(e) = retiro {
            return Err(e);
        }
        let Retiro { quien: _, nombre, cantidad, mantener_viva: _ } = pedido;
        if !self.proyectos.contains_key(&nombre) {
            return Err(Error::ProyectoNoExiste);
        }
        let saldo = match self.proyectos.get(&nombre).checked_add(cantidad) {
            Some(saldo) => saldo,
            None => {
                return Err(Error::DesbordeAritmetico);
            },
        };
        self.fijar_saldo(nombre.clone(), saldo);
        Ok(Event::ProyectoApoyado { nombre, cantidad })
    }

    /// Moves `cantidad` from the balance of the signer into the pool of the
    /// project `nombre`.
    ///
    /// The checks come first and touch nothing: the caller signed, the name
    /// passes the checks on length, the project is registered, the signer can
    /// spend the amount, the pool can hold it. Then the ledger is asked to
    /// debit exactly `cantidad` from the signer, who must stay alive. Only
    /// where it did, the pool grows, by exactly `cantidad`. Where the call
    /// is refused every pool stays as it is, and where it is refused before
    /// the debit the ledger stays as it is too.
    pub fn apoyar_proyecto<A, M: Currency<A>>(
        &mut self,
        origen: Origen<A>,
        nombre: Vec<u8>,
        cantidad: u128,
        moneda: &mut M,
    ) -> (r: Result<Event<A>, Error>)
        ensures
            final(self).limites() == old(self).limites(),
            exists|saldo_libre: u128, retiro: Result<(), Error>| #[trigger]
                apoyo_resuelto(
                    old(self).limites(),
                    old(self).saldos(),
                    origen,
                    nombre@,
                    cantidad,
                    saldo_libre,
                    retiro,
                    final(self).saldos(),
                    r,
                ) && (apoyo_autorizado(
                    old(self).limites(),
                    old(self).saldos(),
                    origen,
                    nombre@,
                    cantidad,
                    saldo_libre,
                ) is Err ==> *final(moneda) == *old(moneda)),
            proyecto_localizado(old(self).limites(), old(self).saldos(), origen, nombre@)
                matches Err(e) ==> r == Err::<Event<A>, Error>(e) && *final(moneda) == *old(
                moneda,
            ),
            r is Err ==> final(self).saldos() == old(self).saldos(),
            r is Ok ==> old(self).saldos().contains_key(nombre@) && final(self).saldos() == old(
                self,
            ).saldos().insert(nombre@, (old(self).saldos()[nombre@] + cantidad) as u128),
    {
        let ghost antes = self.saldos();
        let (quien, validado) = match self.localizar(origen, nombre) {
            Ok(hallado) => hallado,
            Err(e) => {
                assert(apoyo_resuelto(
                    self.limites(),
                    antes,
                    origen,
                    nombre@,
                    cantidad,
                    0u128,
                    Ok::<(), Error>(()),
                    self.saldos(),
                    Err::<Event<A>, Error>(e),
                ));
                return Err(e);
            },
        };
        let saldo_libre = moneda.free_balance(&quien);
        let pedido = match self.autorizar(quien, validado, cantidad, saldo_libre) {
            Ok(pedido) => pedido,
            Err(e) => {
                assert(apoyo_resuelto(
                    self.limites(),
                    antes,
                    origen,
                    nombre@,
                    cantidad,
                    saldo_libre,
                    Ok::<(), Error>(()),
                    self.saldos(),
                    Err::<Event<A>, Error>(e),
                ));
                return Err(e);
            },
        };
        let retiro = moneda.withdraw(&pedido.quien, pedido.cantidad, pedido.mantener_viva);
        let r = self.liquidar_apoyo(pedido, retiro);
        assert(apoyo_resuelto(
            self.limites(),
            antes,
            origen,
            nombre@,
            cantidad,
            saldo_libre,
            retiro,
            self.saldos(),
            r,
        ));
        r
    }
}

} // verus!
