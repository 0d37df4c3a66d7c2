//! Control logic of an automated livestock-feed dispensing line: bounded
//! physical quantities, the silo, doser, blower and selector, and the
//! sequencer that runs a ration of dosing cycles against them.
pub mod rango;
mod ident;
pub mod errors;
pub mod silo;
pub mod dosificador;
pub mod soplador;
pub mod selectora;
pub mod ciclo;
pub mod racion;
pub mod programa;
