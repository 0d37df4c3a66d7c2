//! The blower: an on/off state and a power level in percent.
use vstd::prelude::*;

use crate::errors::SopladorError;
use crate::rango::Rango;
use uuid::Uuid;

verus! {

/// Milliseconds the blower takes to spin up after it is switched on.
pub const CALENTAMIENTO_MS: u32 = 5000;

/// The highest power level, in percent.
pub const POTENCIA_MAX: u32 = 100;

/// A blower that aerates the delivery line.
pub struct Soplador {
    estado: bool,
    potencia: Rango,
    id: Uuid,
}

impl Soplador {
    #[verifier::type_invariant]
    spec fn limites(self) -> bool {
        self.potencia.minimo() == 0 && self.potencia.maximo() == POTENCIA_MAX
    }

    /// Whether the blower is on.
    pub closed spec fn estado(self) -> bool {
        self.estado
    }

    /// The power level, in percent.
    pub closed spec fn potencia(self) -> u32 {
        self.potencia.valor()
    }

    /// The identity given at construction.
    pub closed spec fn identidad(self) -> Uuid {
        self.id
    }

    /// A blower switched off at power 0, with a fresh identity.
    pub fn new() -> (r: Soplador)
        ensures
            !r.estado(),
            r.potencia() == 0,
    {
        Soplador { estado: false, potencia: Rango::new(0, POTENCIA_MAX, 0).unwrap(), id: Uuid::new_v4() }
    }

    /// Switches the blower on or off; returns the blower for chaining. The
    /// spin-up of `CALENTAMIENTO_MS` after switching on is left to the caller.
    pub fn set_estado(&mut self, n: bool) -> (r: &mut Soplador)
        ensures
            r.estado() == n,
            r.potencia() == old(self).potencia(),
            r.identidad() == old(self).identidad(),
            *final(self) == *final(r),
    {
        proof {
            use_type_invariant(&*self);
        }
        self.estado = n;
        self
    }

    /// Sets the power to `n` percent, or fails with `FueraDeRango` and changes
    /// nothing when `n` exceeds `POTENCIA_MAX`.
    pub fn set_potencia(&mut self, n: u32) -> (r: Result<(), SopladorError>)
        ensures
            r is Ok <==> n <= POTENCIA_MAX,
            r is Ok ==> final(self).potencia() == n && final(self).estado() == old(self).estado()
                && final(self).identidad() == old(self).identidad(),
            r is Err ==> r == Err::<(), SopladorError>(SopladorError::FueraDeRango) && *final(self) == *old(self),
    {
        proof {
            use_type_invariant(&*self);
        }
        match self.potencia.set(n) {
            Ok(()) => Ok(()),
            Err(_) => Err(SopladorError::FueraDeRango),
        }
    }

    /// Whether the blower is on.
    pub fn get_estado(&self) -> (r: bool)
        ensures
            r == self.estado(),
    {
        self.estado
    }

    /// The power level, at most `POTENCIA_MAX`.
    pub fn get_potencia(&self) -> (r: u32)
        ensures
            r == self.potencia(),
            r <= POTENCIA_MAX,
    {
        proof {
            use_type_invariant(self);
        }
        self.potencia.get()
    }

    /// The identity of this blower.
    pub fn get_id(&self) -> (r: Uuid)
        ensures
            r == self.identidad(),
    {
        self.id
    }
}

} // verus!
