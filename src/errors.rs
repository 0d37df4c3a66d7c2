//! Errors of the hardware components and of the schedule.
use vstd::prelude::*;

verus! {

/// Errors of the silo.
#[derive(PartialEq, Eq, Structural, Debug, Clone, Copy)]
pub enum SiloError {
    /// A delivery asked for more feed than the silo holds.
    SinAlimento,
    /// A quantity fell outside its bounds; nothing was changed.
    FueraDeRango,
    /// A bounded-value failure that the silo did not expect.
    ErrorInesperado,
}

/// Errors of the blower.
#[derive(PartialEq, Eq, Structural, Debug, Clone, Copy)]
pub enum SopladorError {
    FueraDeRango,
    ErrorInesperado,
}

/// Errors of the selector.
#[derive(PartialEq, Eq, Structural, Debug, Clone, Copy)]
pub enum SelectoraError {
    FueraDeRango,
    ErrorInesperado,
}

/// Errors of a dosing cycle's setters, one per bounded field.
#[derive(PartialEq, Eq, Structural, Debug, Clone, Copy)]
pub enum CicloError {
    CantidadFueraDeRango,
    DuracionFueraDeRango,
    EsperaFueraDeRango,
}

/// Errors of a ration.
#[derive(PartialEq, Eq, Structural, Debug, Clone, Copy)]
pub enum RacionError {
    EsperaFueraDeRango,
}

} // verus!
