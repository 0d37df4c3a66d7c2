//! A dosing cycle: pulse count, pulse duration and pulse wait, each bounded.
use vstd::prelude::*;

use crate::errors::CicloError;
use crate::rango::{Rango, RangoData};
use uuid::Uuid;

verus! {

/// Shortest wait after a pulse, in milliseconds.
pub const ESPERA_MIN: u32 = 1000;

/// Longest wait after a pulse, in milliseconds.
pub const ESPERA_MAX: u32 = 20000;

/// Fewest pulses of a cycle.
pub const PULSOS_MIN: u32 = 0;

/// Most pulses of a cycle.
pub const PULSOS_MAX: u32 = 10000;

/// Shortest pulse, in milliseconds.
pub const DURACION_MIN: u32 = 1000;

/// Longest pulse, in milliseconds.
pub const DURACION_MAX: u32 = 10000;

/// The values of a cycle: pulse count, pulse duration and wait after each pulse.
pub struct Pauta {
    pub pulsos: u32,
    pub duracion: u32,
    pub espera: u32,
}

/// A snapshot of a cycle: each field's value with its bounds.
pub struct CicloData {
    pub pulsos: RangoData,
    pub duracion: RangoData,
    pub espera: RangoData,
}

/// One dosing pass: `pulsos` pulses of `pulso_duracion` ms, each followed by a
/// wait of `pulso_espera` ms.
#[derive(PartialEq, Debug)]
pub struct Ciclo {
    pulso_duracion: Rango,
    pulsos: Rango,
    pulso_espera: Rango,
    id: Uuid,
}

impl View for Ciclo {
    type V = Pauta;

    closed spec fn view(&self) -> Pauta {
        Pauta { pulsos: self.pulsos.valor(), duracion: self.pulso_duracion.valor(), espera: self.pulso_espera.valor() }
    }
}

impl Ciclo {
    #[verifier::type_invariant]
    spec fn limites(self) -> bool {
        &&& self.pulsos.minimo() == PULSOS_MIN && self.pulsos.maximo() == PULSOS_MAX
        &&& self.pulso_duracion.minimo() == DURACION_MIN && self.pulso_duracion.maximo() == DURACION_MAX
        &&& self.pulso_espera.minimo() == ESPERA_MIN && self.pulso_espera.maximo() == ESPERA_MAX
    }

    /// The identity given at construction.
    pub closed spec fn identidad(self) -> Uuid {
        self.id
    }

    /// The snapshot of this cycle: its values with the fixed bounds.
    pub open spec fn datos(self) -> CicloData {
        CicloData {
            pulsos: RangoData { valor: self@.pulsos, min: PULSOS_MIN, max: PULSOS_MAX },
            duracion: RangoData { valor: self@.duracion, min: DURACION_MIN, max: DURACION_MAX },
            espera: RangoData { valor: self@.espera, min: ESPERA_MIN, max: ESPERA_MAX },
        }
    }

    /// What `set_pulsos(n)` does: it succeeds exactly when `n` lies in
    /// `[PULSOS_MIN, PULSOS_MAX]` and then changes the pulse count alone;
    /// otherwise it fails with `CantidadFueraDeRango` and nothing changes.
    pub open spec fn tras_fijar_pulsos(antes: Ciclo, n: u32, despues: Ciclo, r: Result<(), CicloError>) -> bool {
        &&& (r is Ok <==> PULSOS_MIN <= n <= PULSOS_MAX)
        &&& (r is Ok ==> despues@ == (Pauta { pulsos: n, ..antes@ }) && despues.identidad() == antes.identidad())
        &&& (r is Err ==> r == Err::<(), CicloError>(CicloError::CantidadFueraDeRango) && despues == antes)
    }

    /// What `set_pulso_duracion(n)` does, as `tras_fijar_pulsos` does for the
    /// duration and `DuracionFueraDeRango`.
    pub open spec fn tras_fijar_duracion(antes: Ciclo, n: u32, despues: Ciclo, r: Result<(), CicloError>) -> bool {
        &&& (r is Ok <==> DURACION_MIN <= n <= DURACION_MAX)
        &&& (r is Ok ==> despues@ == (Pauta { duracion: n, ..antes@ }) && despues.identidad() == antes.identidad())
        &&& (r is Err ==> r == Err::<(), CicloError>(CicloError::DuracionFueraDeRango) && despues == antes)
    }

    /// What `set_pulso_espera(n)` does, as `tras_fijar_pulsos` does for the wait
    /// and `EsperaFueraDeRango`.
    pub open spec fn tras_fijar_espera(antes: Ciclo, n: u32, despues: Ciclo, r: Result<(), CicloError>) -> bool {
        &&& (r is Ok <==> ESPERA_MIN <= n <= ESPERA_MAX)
        &&& (r is Ok ==> despues@ == (Pauta { espera: n, ..antes@ }) && despues.identidad() == antes.identidad())
        &&& (r is Err ==> r == Err::<(), CicloError>(CicloError::EsperaFueraDeRango) && despues == antes)
    }

    /// A cycle at the lowest value of each field, with a fresh identity.
    pub fn new() -> (r: Ciclo)
        ensures
            r@ == (Pauta { pulsos: PULSOS_MIN, duracion: DURACION_MIN, espera: ESPERA_MIN }),
    {
        Ciclo {
            pulso_duracion: Rango::new(DURACION_MIN, DURACION_MAX, DURACION_MIN).unwrap(),
            pulsos: Rango::new(PULSOS_MIN, PULSOS_MAX, PULSOS_MIN).unwrap(),
            pulso_espera: Rango::new(ESPERA_MIN, ESPERA_MAX, ESPERA_MIN).unwrap(),
            id: Uuid::new_v4(),
        }
    }

    /// Sets the pulse duration in milliseconds.
    pub fn set_pulso_duracion(&mut self, n: u32) -> (r: Result<(), CicloError>)
        ensures
            Ciclo::tras_fijar_duracion(*old(self), n, *final(self), r),
    {
        proof {
            use_type_invariant(&*self);
        }
        match self.pulso_duracion.set(n) {
            Ok(()) => Ok(()),
            Err(_) => Err(CicloError::DuracionFueraDeRango),
        }
    }

    /// Sets the number of pulses.
    pub fn set_pulsos(&mut self, n: u32) -> (r: Result<(), CicloError>)
        ensures
            Ciclo::tras_fijar_pulsos(*old(self), n, *final(self), r),
    {
        proof {
            use_type_invariant(&*self);
        }
        match self.pulsos.set(n) {
            Ok(()) => Ok(()),
            Err(_) => Err(CicloError::CantidadFueraDeRango),
        }
    }

    /// Sets the wait after each pulse in milliseconds.
    pub fn set_pulso_espera(&mut self, n: u32) -> (r: Result<(), CicloError>)
        ensures
            Ciclo::tras_fijar_espera(*old(self), n, *final(self), r),
    {
        proof {
            use_type_invariant(&*self);
        }
        match self.pulso_espera.set(n) {
            Ok(()) => Ok(()),
            Err(_) => Err(CicloError::EsperaFueraDeRango),
        }
    }

    /// The number of pulses.
    pub fn get_pulsos(&self) -> (r: u32)
        ensures
            r == self@.pulsos,
            PULSOS_MIN <= r <= PULSOS_MAX,
    {
        proof {
            use_type_invariant(self);
        }
        self.pulsos.get()
    }

    /// The wait after each pulse.
    pub fn get_pulso_espera(&self) -> (r: u32)
        ensures
            r == self@.espera,
            ESPERA_MIN <= r <= ESPERA_MAX,
    {
        proof {
            use_type_invariant(self);
        }
        self.pulso_espera.get()
    }

    /// The pulse duration.
    pub fn get_pulso_duracion(&self) -> (r: u32)
        ensures
            r == self@.duracion,
            DURACION_MIN <= r <= DURACION_MAX,
    {
        proof {
            use_type_invariant(self);
        }
        self.pulso_duracion.get()
    }

    /// The snapshot of this cycle.
    pub fn get_all(&self) -> (r: CicloData)
        ensures
            r == self.datos(),
    {
        proof {
            use_type_invariant(self);
        }
        CicloData {
            pulsos: self.pulsos.get_rango(),
            duracion: self.pulso_duracion.get_rango(),
            espera: self.pulso_espera.get_rango(),
        }
    }

    /// The identity of this cycle.
    pub fn get_id(&self) -> (r: Uuid)
        ensures
            r == self.identidad(),
    {
        self.id
    }
}

/// Snapshot round trip: once `set_pulsos(k)` has been called with `k` within
/// bounds, it has succeeded and the snapshot reports `k` pulses.
pub proof fn ley_instantanea(antes: Ciclo, k: u32, despues: Ciclo, r: Result<(), CicloError>)
    requires
        Ciclo::tras_fijar_pulsos(antes, k, despues, r),
        PULSOS_MIN <= k <= PULSOS_MAX,
    ensures
        r is Ok,
        despues.datos().pulsos.valor == k,
{
}

} // verus!
