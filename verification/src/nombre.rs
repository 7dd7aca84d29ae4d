use vstd::prelude::*;
use frame_support::BoundedVec;
use frame_support::traits::ConstU32;
use crate::config::Config;
use crate::error::Error;

verus! {

/// The most bytes that a bounded name can ever hold, whatever the configuration.
pub const CAPACIDAD_NOMBRE: u32 = 4294967295;

/// `BoundedVec`, the vector with a bound on its length that `frame_support`
/// hands on. Nothing inside it is visible here.
#[verifier::external_type_specification]
#[verifier::external_body]
#[verifier::reject_recursive_types(T)]
#[verifier::reject_recursive_types(S)]
pub struct ExBoundedVec<T, S>(BoundedVec<T, S>);

/// `ConstU32`, the type that stands for one `u32`: here the bound of a
/// bounded vector.
#[verifier::external_type_specification]
#[verifier::external_body]
pub struct ExConstU32<const N: u32>(ConstU32<N>);

/// The bytes that a bounded vector holds, in order. Nothing more is said of
/// it than what the three functions below say.
pub uninterp spec fn bytes_acotados(acotado: BoundedVec<u8, ConstU32<CAPACIDAD_NOMBRE>>) -> Seq<u8>;

/// `BoundedVec::try_from` on a `Vec`: the vector comes back bounded, with the
/// same bytes, where it holds no more than the bound; where it holds more it
/// comes back as it was, as the error.
#[verifier::external_body]
fn acotar(bytes: Vec<u8>) -> (r: Result<BoundedVec<u8, ConstU32<CAPACIDAD_NOMBRE>>, Vec<u8>>)
    ensures
        match r {
            Ok(acotado) => bytes@.len() <= CAPACIDAD_NOMBRE && bytes_acotados(acotado) == bytes@,
            Err(devuelto) => bytes@.len() > CAPACIDAD_NOMBRE && devuelto@ == bytes@,
        },
{
    BoundedVec::try_from(bytes)
}

/// `BoundedVec::as_ref`, as a slice: the bytes that the vector holds.
#[verifier::external_body]
fn bytes_de(acotado: &BoundedVec<u8, ConstU32<CAPACIDAD_NOMBRE>>) -> (bytes: &[u8])
    ensures
        bytes@ == bytes_acotados(*acotado),
{
    acotado.as_ref()
}

/// `BoundedVec::clone`: a bounded vector with the same bytes.
#[verifier::external_body]
fn copia_de(acotado: &BoundedVec<u8, ConstU32<CAPACIDAD_NOMBRE>>) -> (copia: BoundedVec<
    u8,
    ConstU32<CAPACIDAD_NOMBRE>,
>)
    ensures
        bytes_acotados(copia) == bytes_acotados(*acotado),
{
    acotado.clone()
}

/// The name of a project: bytes that passed the checks on length.
#[derive(Debug)]
pub struct NombreProyecto {
    acotado: BoundedVec<u8, ConstU32<CAPACIDAD_NOMBRE>>,
}

impl View for NombreProyecto {
    type V = Seq<u8>;

    closed spec fn view(&self) -> Seq<u8> {
        bytes_acotados(self.acotado)
    }
}

/// What the checks on length make of a raw name: the name itself where its
/// length lies within the bounds, else the reason why it is refused. A name
/// that is too long for a bounded name is refused as too long before the
/// configured bounds are looked at.
pub open spec fn nombre_validado(config: Config, nombre: Seq<u8>) -> Result<Seq<u8>, Error> {
    if nombre.len() > CAPACIDAD_NOMBRE {
        Err(Error::NombreMuyLargo)
    } else if nombre.len() < config.largo_minimo() {
        Err(Error::NombreMuyCorto)
    } else if nombre.len() > config.largo_maximo() {
        Err(Error::NombreMuyLargo)
    } else {
        Ok(nombre)
    }
}

impl NombreProyecto {
    /// Checks a raw name against the bounds of `config`.
    pub fn validar(config: &Config, nombre: Vec<u8>) -> (r: Result<NombreProyecto, Error>)
        ensures
            match nombre_validado(*config, nombre@) {
                Ok(bytes) => r matches Ok(validado) && validado@ == bytes,
                Err(e) => r == Err::<NombreProyecto, Error>(e),
            },
    {
        let acotado = match acotar(nombre) {
            Ok(acotado) => acotado,
            Err(_) => {
                return Err(Error::NombreMuyLargo);
            },
        };
        let largo: usize = bytes_de(&acotado).len();
        if largo < config.largo_minimo_nombre_proyecto() as usize {
            return Err(Error::NombreMuyCorto);
        }
        if largo > config.largo_maximo_nombre_proyecto() as usize {
            return Err(Error::NombreMuyLargo);
        }
        Ok(NombreProyecto { acotado })
    }

    /// The bytes of the name.
    pub fn as_bytes(&self) -> (bytes: &[u8])
        ensures
            bytes@ == self@,
    {
        bytes_de(&self.acotado)
    }

    /// How many bytes the name holds.
    pub fn len(&self) -> (largo: usize)
        ensures
            largo == self@.len(),
    {
        bytes_de(&self.acotado).len()
    }

    /// Whether the name passes the checks on length of `config`.
    pub fn cumple(&self, config: &Config) -> (cumple: bool)
        ensures
            cumple == (nombre_validado(*config, self@) == Ok::<Seq<u8>, Error>(self@)),
    {
        let largo: usize = bytes_de(&self.acotado).len();
        largo >= config.largo_minimo_nombre_proyecto() as usize && largo
            <= config.largo_maximo_nombre_proyecto() as usize
    }

    /// Whether the name spells exactly `bytes`.
    pub fn es(&self, bytes: &[u8]) -> (igual: bool)
        ensures
            igual == (self@ == bytes@),
    {
        mismos_bytes(bytes_de(&self.acotado), bytes)
    }
}

/// Whether two slices hold the same bytes in the same order.
fn mismos_bytes(a: &[u8], b: &[u8]) -> (iguales: bool)
    ensures
        iguales == (a@ == b@),
{
    if a.len() != b.len() {
        return false;
    }
    let mut i: usize = 0;
    while i < a.len()
        invariant
            a@.len() == b@.len(),
            i <= a@.len(),
            forall|j: int| 0 <= j < i ==> a@[j] == b@[j],
        decreases a@.len() - i,
    {
        if a[i] != b[i] {
            return false;
        }
        i += 1;
    }
    assert(a@ =~= b@);
    true
}

impl Clone for NombreProyecto {
    fn clone(&self) -> (copia: Self)
        ensures
            copia@ == self@,
    {
        NombreProyecto { acotado: copia_de(&self.acotado) }
    }
}

impl PartialEq for NombreProyecto {
    fn eq(&self, otro: &Self) -> (iguales: bool) {
        mismos_bytes(bytes_de(&self.acotado), bytes_de(&otro.acotado))
    }
}

impl Eq for NombreProyecto {

}

impl vstd::std_specs::cmp::PartialEqSpecImpl for NombreProyecto {
    open spec fn obeys_eq_spec() -> bool {
        true
    }

    open spec fn eq_spec(&self, otro: &Self) -> bool {
        self@ == otro@
    }
}

} // verus!
