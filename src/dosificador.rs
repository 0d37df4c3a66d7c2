//! The doser: a fixed delivery rate and an on/off state.
use vstd::prelude::*;

use uuid::Uuid;

verus! {

/// A doser that delivers a fixed number of kilograms per second while open.
pub struct Dosificador {
    entrega: u32,
    estado: bool,
    id: Uuid,
}

impl Dosificador {
    /// The delivery rate, in kilograms per second.
    pub closed spec fn entrega(self) -> u32 {
        self.entrega
    }

    /// Whether the doser is on.
    pub closed spec fn estado(self) -> bool {
        self.estado
    }

    /// The identity given at construction.
    pub closed spec fn identidad(self) -> Uuid {
        self.id
    }

    /// A doser with the given rate, switched off, with a fresh identity.
    pub fn new(entrega: u32) -> (r: Dosificador)
        ensures
            r.entrega() == entrega,
            !r.estado(),
    {
        Dosificador { entrega, estado: false, id: Uuid::new_v4() }
    }

    /// Switches the doser on or off; returns the doser for chaining.
    pub fn set_estado(&mut self, n: bool) -> (r: &mut Dosificador)
        ensures
            r.estado() == n,
            r.entrega() == old(self).entrega(),
            r.identidad() == old(self).identidad(),
            *final(self) == *final(r),
    {
        self.estado = n;
        self
    }

    /// The delivery rate.
    pub fn get_entrega(&self) -> (r: u32)
        ensures
            r == self.entrega(),
    {
        self.entrega
    }

    /// Whether the doser is on.
    pub fn get_estado(&self) -> (r: bool)
        ensures
            r == self.estado(),
    {
        self.estado
    }

    /// The identity of this doser.
    pub fn get_id(&self) -> (r: Uuid)
        ensures
            r == self.identidad(),
    {
        self.id
    }
}

} // verus!
