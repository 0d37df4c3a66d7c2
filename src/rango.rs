//! A scalar confined to an inclusive `[min, max]` range.
use vstd::prelude::*;

verus! {

/// Error of a bounded value: the requested value lies outside its range.
#[derive(PartialEq, Eq, Structural, Debug, Clone, Copy)]
pub enum RangoError {
    FueraDeRango,
}

/// The bounds of a bounded value together with its current value.
#[derive(PartialEq, Eq, Structural, Debug, Clone, Copy)]
pub struct RangoData {
    pub valor: u32,
    pub min: u32,
    pub max: u32,
}

/// Selects one of the two bounds of a range.
#[derive(PartialEq, Eq, Structural, Debug, Clone, Copy, Hash)]
pub enum Key {
    Min,
    Max,
}

/// A `u32` that always lies within the inclusive range `[min, max]`.
#[derive(PartialEq, Eq, Structural, Debug, Clone, Copy)]
pub struct Rango {
    valor: u32,
    min: u32,
    max: u32,
}

impl Rango {
    #[verifier::type_invariant]
    spec fn dentro(self) -> bool {
        self.min <= self.valor <= self.max
    }

    /// The value held.
    pub closed spec fn valor(self) -> u32 {
        self.valor
    }

    /// The lower bound.
    pub closed spec fn minimo(self) -> u32 {
        self.min
    }

    /// The upper bound.
    pub closed spec fn maximo(self) -> u32 {
        self.max
    }

    /// Whether `v` lies within the bounds of this range.
    pub open spec fn admite(self, v: u32) -> bool {
        self.minimo() <= v <= self.maximo()
    }

    /// What `set(v)` does: it succeeds exactly when `v` is within bounds and then
    /// holds `v`; otherwise it fails and nothing changes.
    pub open spec fn tras_set(antes: Rango, v: u32, despues: Rango, r: Result<(), RangoError>) -> bool {
        &&& despues.minimo() == antes.minimo()
        &&& despues.maximo() == antes.maximo()
        &&& (r is Ok <==> antes.admite(v))
        &&& (r is Ok ==> despues.valor() == v)
        &&& (r is Err ==> r == Err::<(), RangoError>(RangoError::FueraDeRango) && despues == antes)
    }

    /// Creates a range holding `valor_inicial`; fails when it lies outside `[min, max]`.
    pub fn new(min: u32, max: u32, valor_inicial: u32) -> (r: Result<Rango, RangoError>)
        ensures
            r is Ok <==> min <= valor_inicial <= max,
            r is Ok ==> r->Ok_0.valor() == valor_inicial && r->Ok_0.minimo() == min
                && r->Ok_0.maximo() == max,
            r is Err ==> r == Err::<Rango, RangoError>(RangoError::FueraDeRango),
    {
        if valor_inicial < min || valor_inicial > max {
            return Err(RangoError::FueraDeRango);
        }
        Ok(Rango { valor: valor_inicial, min, max })
    }

    /// Replaces the value when `valor` is within bounds; otherwise fails and
    /// leaves the range untouched.
    pub fn set(&mut self, valor: u32) -> (r: Result<(), RangoError>)
        ensures
            Rango::tras_set(*old(self), valor, *final(self), r),
        no_unwind
    {
        if valor < self.min || valor > self.max {
            return Err(RangoError::FueraDeRango);
        }
        self.valor = valor;
        Ok(())
    }

    /// The value held, which always lies within the bounds.
    pub fn get(&self) -> (r: u32)
        ensures
            r == self.valor(),
            self.minimo() <= r <= self.maximo(),
    {
        proof {
            use_type_invariant(self);
        }
        self.valor
    }

    /// The current value with the bounds.
    pub fn get_rango(&self) -> (r: RangoData)
        ensures
            r == (RangoData { valor: self.valor(), min: self.minimo(), max: self.maximo() }),
    {
        RangoData { valor: self.valor, min: self.min, max: self.max }
    }

    /// One of the two bounds.
    pub fn limite(&self, k: Key) -> (r: u32)
        ensures
            r == match k {
                Key::Min => self.minimo(),
                Key::Max => self.maximo(),
            },
    {
        match k {
            Key::Min => self.min,
            Key::Max => self.max,
        }
    }
}

/// Bound enforcement: a value within the bounds is accepted and is what the range
/// then holds; a value outside them is refused and the held value stays as it was.
pub proof fn ley_acotacion(antes: Rango, v: u32, despues: Rango, r: Result<(), RangoError>)
    requires
        Rango::tras_set(antes, v, despues, r),
    ensures
        antes.minimo() <= v <= antes.maximo() ==> r is Ok && despues.valor() == v,
        !(antes.minimo() <= v <= antes.maximo()) ==> r is Err && despues.valor() == antes.valor(),
{
}

} // verus!
