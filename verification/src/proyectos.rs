use vstd::prelude::*;
use crate::config::Config;
use crate::error::Error;
use crate::nombre::{nombre_validado, NombreProyecto};

verus! {

/// The pool of one registered project.
struct Proyecto {
    nombre: NombreProyecto,
    saldo: u128,
}

/// The registry: for each registered name, what its pool holds.
pub struct Proyectos {
    entradas: Vec<Proyecto>,
    saldos: Ghost<Map<Seq<u8>, u128>>,
}

impl View for Proyectos {
    type V = Map<Seq<u8>, u128>;

    closed spec fn view(&self) -> Map<Seq<u8>, u128> {
        self.saldos@
    }
}

/// What a pool holds according to `saldos`: nothing where the name is not registered.
pub open spec fn saldo_de(saldos: Map<Seq<u8>, u128>, nombre: Seq<u8>) -> u128 {
    if saldos.contains_key(nombre) {
        saldos[nombre]
    } else {
        0
    }
}

/// Every name with a pool passes the checks on length of `config`.
pub open spec fn nombres_en_limites(config: Config, saldos: Map<Seq<u8>, u128>) -> bool {
    forall|nombre: Seq<u8>| #[trigger]
        saldos.contains_key(nombre) ==> nombre_validado(config, nombre) == Ok::<Seq<u8>, Error>(
            nombre,
        )
}

/// The entries and the map agree, and no name has two entries.
spec fn coherentes(entradas: Seq<Proyecto>, saldos: Map<Seq<u8>, u128>) -> bool {
    &&& forall|i: int|
        0 <= i < entradas.len() ==> saldos.contains_key((#[trigger] entradas[i]).nombre@)
            && saldos[entradas[i].nombre@] == entradas[i].saldo
    &&& forall|nombre: Seq<u8>| #[trigger]
        saldos.contains_key(nombre) ==> exists|i: int|
            0 <= i < entradas.len() && (#[trigger] entradas[i]).nombre@ == nombre
    &&& forall|i: int, j: int|
        0 <= i < j < entradas.len() ==> (#[trigger] entradas[i]).nombre@ != (
        #[trigger] entradas[j]).nombre@
}

impl Proyectos {
    #[verifier::type_invariant]
    spec fn bien_formado(self) -> bool {
        coherentes(self.entradas@, self.saldos@)
    }

    /// A registry without projects.
    pub fn new() -> (proyectos: Proyectos)
        ensures
            proyectos@ == Map::<Seq<u8>, u128>::empty(),
    {
        Proyectos { entradas: Vec::new(), saldos: Ghost(Map::empty()) }
    }

    /// Where the entry of `nombre` stands, if it has one.
    fn posicion(&self, nombre: &NombreProyecto) -> (r: Option<usize>)
        ensures
            match r {
                Some(i) => i < self.entradas@.len() && self.entradas@[i as int].nombre@ == nombre@,
                None => forall|i: int|
                    0 <= i < self.entradas@.len() ==> (#[trigger] self.entradas@[i]).nombre@
                        != nombre@,
            },
    {
        let mut i: usize = 0;
        while i < self.entradas.len()
            invariant
                i <= self.entradas@.len(),
                forall|j: int| 0 <= j < i ==> (#[trigger] self.entradas@[j]).nombre@ != nombre@,
            decreases self.entradas@.len() - i,
        {
            if self.entradas[i].nombre.es(nombre.as_bytes()) {
                return Some(i);
            }
            i += 1;
        }
        None
    }

    /// Whether a project of that name is registered.
    pub fn contains_key(&self, nombre: &NombreProyecto) -> (existe: bool)
        ensures
            existe == self@.contains_key(nombre@),
    {
        proof {
            use_type_invariant(self);
        }
        self.posicion(nombre).is_some()
    }

    /// What the pool of that project holds; nothing where no such project is registered.
    pub fn get(&self, nombre: &NombreProyecto) -> (saldo: u128)
        ensures
            saldo == saldo_de(self@, nombre@),
    {
        proof {
            use_type_invariant(self);
        }
        match self.posicion(nombre) {
            Some(i) => self.entradas[i].saldo,
            None => 0,
        }
    }

    /// Whether every registered name passes the checks on length of `config`.
    pub fn en_limites(&self, config: &Config) -> (todos: bool)
        ensures
            todos == nombres_en_limites(*config, self@),
    {
        proof {
            use_type_invariant(self);
        }
        let mut i: usize = 0;
        while i < self.entradas.len()
            invariant
                i <= self.entradas@.len(),
                coherentes(self.entradas@, self.saldos@),
                forall|j: int|
                    0 <= j < i ==> nombre_validado(*config, (#[trigger] self.entradas@[j]).nombre@)
                        == Ok::<Seq<u8>, Error>(self.entradas@[j].nombre@),
            decreases self.entradas@.len() - i,
        {
            if !self.entradas[i].nombre.cumple(config) {
                assert(self.saldos@.contains_key(self.entradas@[i as int].nombre@));
                return false;
            }
            i += 1;
        }
        true
    }

    /// Registers `nombre` with a pool of `saldo`; where it is registered
    /// already, its pool is set to `saldo`. No other pool changes.
    pub fn insert(&mut self, nombre: NombreProyecto, saldo: u128)
        ensures
            final(self)@ == old(self)@.insert(nombre@, saldo),
    {
        proof {
            use_type_invariant(&*self);
        }
        let posicion = self.posicion(&nombre);
        let mut vacio = Proyectos::new();
        std::mem::swap(&mut vacio, self);
        proof {
            use_type_invariant(&vacio);
        }
        let Proyectos { entradas, saldos } = vacio;
        let mut entradas = entradas;
        let ghost antes = entradas@;
        let ghost nuevos = saldos@.insert(nombre@, saldo);
        let ghost donde: int;
        match posicion {
            Some(i) => {
                entradas[i].saldo = saldo;
                proof {
                    donde = i as int;
                }
            },
            None => {
                proof {
                    donde = antes.len() as int;
                }
                entradas.push(Proyecto { nombre, saldo });
            },
        }
        proof {
            assert(entradas@[donde].nombre@ == nombre@ && entradas@[donde].saldo == saldo);
            assert forall|j: int| 0 <= j < entradas@.len() && j != donde implies (
            #[trigger] entradas@[j]) == antes[j] && antes[j].nombre@ != nombre@ by {
                assert(antes[j].nombre@ != nombre@);
            }
            assert forall|clave: Seq<u8>| #[trigger] nuevos.contains_key(clave) implies exists|
                j: int,
            |
                0 <= j < entradas@.len() && (#[trigger] entradas@[j]).nombre@ == clave by {
                if clave == nombre@ {
                    assert(entradas@[donde].nombre@ == clave);
                } else {
                    assert(saldos@.contains_key(clave));
                    let j = choose|j: int|
                        0 <= j < antes.len() && (#[trigger] antes[j]).nombre@ == clave;
                    assert(entradas@[j].nombre@ == clave);
                }
            }
            assert forall|j: int| 0 <= j < entradas@.len() implies nuevos.contains_key(
                (#[trigger] entradas@[j]).nombre@,
            ) && nuevos[entradas@[j].nombre@] == entradas@[j].saldo by {
                if j != donde {
                    assert(entradas@[j] == antes[j]);
                }
            }
            assert forall|j: int, k: int| 0 <= j < k < entradas@.len() implies (
            #[trigger] entradas@[j]).nombre@ != (#[trigger] entradas@[k]).nombre@ by {
                if j != donde && k != donde {
                    assert(entradas@[j] == antes[j]);
                    assert(entradas@[k] == antes[k]);
                }
            }
            assert(coherentes(entradas@, nuevos));
        }
        *self = Proyectos { entradas, saldos: Ghost(nuevos) };
    }
}

} // verus!
