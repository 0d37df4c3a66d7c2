//! The selector: a bounded output position.
use vstd::prelude::*;

use crate::errors::SelectoraError;
use crate::rango::{Rango, RangoData};
use uuid::Uuid;

verus! {

/// Milliseconds a new selector waits after moving.
pub const ESPERA_INICIAL: u32 = 20000;

/// Labels of the selector.
#[derive(PartialEq, Eq, Structural, Debug, Clone, Copy)]
pub enum TAGS {
    NAME,
}

impl TAGS {
    /// The text of the label.
    pub fn as_str(&self) -> (r: &'static str)
        ensures
            r@ == "Selectora"@,
    {
        proof {
            reveal_strlit("Selectora");
        }
        match self {
            TAGS::NAME => "Selectora",
        }
    }
}

/// A selector whose positions run from 0 up to a maximum fixed at construction.
pub struct Selectora {
    posicion: Rango,
    id: Uuid,
    espera: u32,
}

impl Selectora {
    #[verifier::type_invariant]
    spec fn limites(self) -> bool {
        self.posicion.minimo() == 0
    }

    /// The current position.
    pub closed spec fn posicion(self) -> u32 {
        self.posicion.valor()
    }

    /// The highest position.
    pub closed spec fn posicion_maxima(self) -> u32 {
        self.posicion.maximo()
    }

    /// The wait after a move, in milliseconds.
    pub closed spec fn espera(self) -> u32 {
        self.espera
    }

    /// The identity given at construction.
    pub closed spec fn identidad(self) -> Uuid {
        self.id
    }

    /// A selector at position 0 whose positions run up to `posicion_maxima`.
    pub fn new(posicion_maxima: u32) -> (r: Selectora)
        ensures
            r.posicion() == 0,
            r.posicion_maxima() == posicion_maxima,
            r.espera() == ESPERA_INICIAL,
    {
        Selectora {
            posicion: Rango::new(0, posicion_maxima, 0).unwrap(),
            id: Uuid::new_v4(),
            espera: ESPERA_INICIAL,
        }
    }

    /// Moves to position `n`, or fails with `FueraDeRango` and stays when `n`
    /// exceeds the highest position.
    pub fn set_posicion(&mut self, n: u32) -> (r: Result<(), SelectoraError>)
        ensures
            final(self).posicion_maxima() == old(self).posicion_maxima(),
            final(self).espera() == old(self).espera(),
            final(self).identidad() == old(self).identidad(),
            r is Ok <==> n <= old(self).posicion_maxima(),
            r is Ok ==> final(self).posicion() == n,
            r is Err ==> r == Err::<(), SelectoraError>(SelectoraError::FueraDeRango) && *final(self) == *old(self),
    {
        proof {
            use_type_invariant(&*self);
        }
        match self.posicion.set(n) {
            Ok(()) => Ok(()),
            Err(_) => Err(SelectoraError::FueraDeRango),
        }
    }

    /// Sets the wait after a move.
    pub fn set_espera(&mut self, n: u32)
        ensures
            final(self).espera() == n,
            final(self).posicion() == old(self).posicion(),
            final(self).posicion_maxima() == old(self).posicion_maxima(),
            final(self).identidad() == old(self).identidad(),
    {
        proof {
            use_type_invariant(&*self);
        }
        self.espera = n;
    }

    /// The current position.
    pub fn get_posicion(&self) -> (r: u32)
        ensures
            r == self.posicion(),
            r <= self.posicion_maxima(),
    {
        self.posicion.get()
    }

    /// The range of positions with the current one.
    pub fn get_posiciones(&self) -> (r: RangoData)
        ensures
            r == (RangoData { valor: self.posicion(), min: 0, max: self.posicion_maxima() }),
    {
        proof {
            use_type_invariant(self);
        }
        self.posicion.get_rango()
    }

    /// The identity of this selector.
    pub fn get_id(&self) -> (r: Uuid)
        ensures
            r == self.identidad(),
    {
        self.id
    }
}

} // verus!
