//! A ration: an ordered sequence of borrowed cycles and the wait after each.
use vstd::prelude::*;

use crate::ciclo::{Ciclo, Pauta};
use crate::errors::RacionError;
use crate::rango::Rango;
use uuid::Uuid;

verus! {

/// Shortest wait after a cycle: one minute, in milliseconds.
pub const ESPERA_MIN: u32 = 60000;

/// Longest wait after a cycle: five hours, in milliseconds.
pub const ESPERA_MAX: u32 = 18000000;

/// An ordered sequence of cycles, which may repeat, run one after another with
/// a wait after each.
pub struct Racion<'a> {
    ciclos: Vec<&'a Ciclo>,
    ciclo_espera: Rango,
    id: Uuid,
}

impl<'a> Racion<'a> {
    #[verifier::type_invariant]
    spec fn limites(self) -> bool {
        self.ciclo_espera.minimo() == ESPERA_MIN && self.ciclo_espera.maximo() == ESPERA_MAX
    }

    /// The cycles, in order.
    pub closed spec fn ciclos(self) -> Seq<&'a Ciclo> {
        self.ciclos@
    }

    /// The values of the cycles, in order.
    pub open spec fn pautas(self) -> Seq<Pauta> {
        self.ciclos().map_values(|c: &'a Ciclo| c@)
    }

    /// The wait after each cycle, in milliseconds.
    pub closed spec fn espera(self) -> u32 {
        self.ciclo_espera.valor()
    }

    /// The identity given at construction.
    pub closed spec fn identidad(self) -> Uuid {
        self.id
    }

    /// A ration of the given cycles with the shortest wait, and a fresh identity.
    pub fn new(ciclos: Vec<&'a Ciclo>) -> (r: Racion<'a>)
        ensures
            r.ciclos() == ciclos@,
            r.espera() == ESPERA_MIN,
    {
        Racion {
            ciclos,
            ciclo_espera: Rango::new(ESPERA_MIN, ESPERA_MAX, ESPERA_MIN).unwrap(),
            id: Uuid::new_v4(),
        }
    }

    /// The cycles, in order.
    pub fn get_ciclos(&self) -> (r: &Vec<&'a Ciclo>)
        ensures
            r@ == self.ciclos(),
    {
        &self.ciclos
    }

    /// Sets the wait after each cycle, or fails with `EsperaFueraDeRango` and
    /// changes nothing when `n` lies outside `[ESPERA_MIN, ESPERA_MAX]`.
    pub fn set_ciclo_espera(&mut self, n: u32) -> (r: Result<(), RacionError>)
        ensures
            final(self).ciclos() == old(self).ciclos(),
            final(self).identidad() == old(self).identidad(),
            r is Ok <==> ESPERA_MIN <= n <= ESPERA_MAX,
            r is Ok ==> final(self).espera() == n,
            r is Err ==> r == Err::<(), RacionError>(RacionError::EsperaFueraDeRango) && *final(self) == *old(self),
    {
        proof {
            use_type_invariant(&*self);
        }
        match self.ciclo_espera.set(n) {
            Ok(()) => Ok(()),
            Err(_) => Err(RacionError::EsperaFueraDeRango),
        }
    }

    /// The wait after each cycle.
    pub fn get_ciclo_espera(&self) -> (r: u32)
        ensures
            r == self.espera(),
            ESPERA_MIN <= r <= ESPERA_MAX,
    {
        proof {
            use_type_invariant(self);
        }
        self.ciclo_espera.get()
    }

    /// The identity of this ration.
    pub fn get_id(&self) -> (r: Uuid)
        ensures
            r == self.identidad(),
    {
        self.id
    }
}

} // verus!
