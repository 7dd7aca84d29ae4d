use vstd::prelude::*;

verus! {

/// The bounds on the length of a project name, fixed when the pallet is set up.
#[derive(Clone, Copy, Debug, PartialEq, Eq, Structural)]
pub struct Config {
    largo_minimo: u32,
    largo_maximo: u32,
}

impl Config {
    /// The shortest name that is accepted, in bytes.
    pub closed spec fn largo_minimo(self) -> u32 {
        self.largo_minimo
    }

    /// The longest name that is accepted, in bytes.
    pub closed spec fn largo_maximo(self) -> u32 {
        self.largo_maximo
    }

    /// Bounds make sense when a name may not be empty and some length
    /// lies within them.
    pub open spec fn limites_validos(largo_minimo: u32, largo_maximo: u32) -> bool {
        1 <= largo_minimo <= largo_maximo
    }

    /// Whether the bounds of this configuration make sense. Every
    /// configuration that the program holds is valid.
    #[verifier::type_invariant]
    pub open spec fn valida(self) -> bool {
        Self::limites_validos(self.largo_minimo(), self.largo_maximo())
    }

    /// The configuration with these bounds, or `None` where they make no sense.
    pub fn new(largo_minimo: u32, largo_maximo: u32) -> (config: Option<Config>)
        ensures
            config is Some <==> Self::limites_validos(largo_minimo, largo_maximo),
            config matches Some(c) ==> c.largo_minimo() == largo_minimo && c.largo_maximo()
                == largo_maximo,
    {
        if 1 <= largo_minimo && largo_minimo <= largo_maximo {
            Some(Config { largo_minimo, largo_maximo })
        } else {
            None
        }
    }

    /// The shortest name that is accepted, in bytes.
    pub fn largo_minimo_nombre_proyecto(&self) -> (largo: u32)
        ensures
            largo == self.largo_minimo(),
            self.valida(),
    {
        proof {
            use_type_invariant(self);
        }
        self.largo_minimo
    }

    /// The longest name that is accepted, in bytes.
    pub fn largo_maximo_nombre_proyecto(&self) -> (largo: u32)
        ensures
            largo == self.largo_maximo(),
            self.valida(),
    {
        proof {
            use_type_invariant(self);
        }
        self.largo_maximo
    }
}

} // verus!
