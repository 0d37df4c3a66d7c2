//! The storage silo: current feed, bounded by the capacity, and the feed that
//! has ever been loaded into it.
use vstd::prelude::*;

use crate::errors::SiloError;
use crate::rango::{Key, Rango};
use uuid::Uuid;

verus! {

/// The largest value the historical counter can reach.
pub const HISTORICO_MAX: u32 = 4294967295;

/// A silo of feed, in kilograms.
pub struct Silo {
    alimento: Rango,
    historico: Rango,
    id: Uuid,
}

/// One of the two operations that change a silo.
pub enum OperacionSilo {
    /// `set_alimento` with the given amount.
    FijarAlimento(u32),
    /// `entregar_pulso` with the given amount.
    EntregarPulso(u32),
}

impl Silo {
    #[verifier::type_invariant]
    spec fn limites(self) -> bool {
        &&& self.alimento.minimo() == 0
        &&& self.historico.minimo() == 0
        &&& self.historico.maximo() == HISTORICO_MAX
    }

    /// The feed currently held.
    pub closed spec fn alimento(self) -> u32 {
        self.alimento.valor()
    }

    /// The feed ever loaded: the sum of all increases of the held feed.
    pub closed spec fn historico(self) -> u32 {
        self.historico.valor()
    }

    /// The identity given at construction.
    pub closed spec fn identidad(self) -> Uuid {
        self.id
    }

    /// The capacity, fixed at construction.
    pub closed spec fn capacidad(self) -> u32 {
        self.alimento.maximo()
    }

    /// What `set_alimento(n)` does. It succeeds exactly when `n` fits the capacity
    /// and the growth `n - alimento` (if any) fits the historical counter; then the
    /// silo holds `n` and the counter has grown by that growth. Otherwise it fails
    /// with `FueraDeRango` and nothing changes.
    pub open spec fn tras_fijar(antes: Silo, n: u32, despues: Silo, r: Result<(), SiloError>) -> bool {
        let crece: int = if n > antes.alimento() { n - antes.alimento() } else { 0 };
        &&& despues.capacidad() == antes.capacidad()
        &&& (r is Ok <==> n <= antes.capacidad() && antes.historico() + crece <= HISTORICO_MAX)
        &&& (r is Ok ==> despues.alimento() == n && despues.historico() == antes.historico() + crece
            && despues.identidad() == antes.identidad())
        &&& (r is Err ==> r == Err::<(), SiloError>(SiloError::FueraDeRango) && despues == antes)
    }

    /// What `entregar_pulso(p)` does. It succeeds exactly when `p` does not exceed
    /// the feed held; then the feed drops by `p` and the historical counter stays.
    /// Otherwise it fails with `SinAlimento` and nothing changes.
    pub open spec fn tras_entregar(antes: Silo, p: u32, despues: Silo, r: Result<(), SiloError>) -> bool {
        &&& despues.capacidad() == antes.capacidad()
        &&& despues.historico() == antes.historico()
        &&& (r is Ok <==> p <= antes.alimento())
        &&& (r is Ok ==> despues.alimento() == antes.alimento() - p && despues.identidad() == antes.identidad())
        &&& (r is Err ==> r == Err::<(), SiloError>(SiloError::SinAlimento) && despues == antes)
    }

    /// What either operation does.
    pub open spec fn tras(antes: Silo, op: OperacionSilo, despues: Silo, r: Result<(), SiloError>) -> bool {
        match op {
            OperacionSilo::FijarAlimento(n) => Silo::tras_fijar(antes, n, despues, r),
            OperacionSilo::EntregarPulso(p) => Silo::tras_entregar(antes, p, despues, r),
        }
    }

    /// An empty silo of the given capacity with a fresh identity.
    pub fn new(capacidad: u32) -> (r: Silo)
        ensures
            r.alimento() == 0,
            r.historico() == 0,
            r.capacidad() == capacidad,
    {
        Silo {
            alimento: Rango::new(0, capacidad, 0).unwrap(),
            historico: Rango::new(0, HISTORICO_MAX, 0).unwrap(),
            id: Uuid::new_v4(),
        }
    }

    /// Adds `n` to the historical counter, or fails with `FueraDeRango` and
    /// changes nothing when the sum would leave its bounds.
    fn set_historico(&mut self, n: u32) -> (r: Result<(), SiloError>)
        ensures
            final(self).alimento == old(self).alimento,
            final(self).id == old(self).id,
            r is Ok <==> old(self).historico() + n <= HISTORICO_MAX,
            r is Ok ==> final(self).historico() == old(self).historico() + n,
            r is Err ==> r == Err::<(), SiloError>(SiloError::FueraDeRango) && *final(self) == *old(self),
    {
        proof {
            use_type_invariant(&*self);
        }
        let x = self.historico.get();
        if x > HISTORICO_MAX - n {
            return Err(SiloError::FueraDeRango);
        }
        match self.historico.set(x + n) {
            Ok(()) => Ok(()),
            Err(_) => Err(SiloError::FueraDeRango),
        }
    }

    /// Sets the feed held to `n`. A rise counts into the historical counter; the
    /// two change together or not at all.
    pub fn set_alimento(&mut self, n: u32) -> (r: Result<(), SiloError>)
        ensures
            Silo::tras_fijar(*old(self), n, *final(self), r),
    {
        proof {
            use_type_invariant(&*self);
        }
        let actual = self.alimento.get();
        if n > self.alimento.limite(Key::Max) {
            return Err(SiloError::FueraDeRango);
        }
        if actual < n {
            if let Err(_) = self.set_historico(n - actual) {
                return Err(SiloError::FueraDeRango);
            }
        }
        proof {
            use_type_invariant(&*self);
        }
        match self.alimento.set(n) {
            Ok(()) => Ok(()),
            Err(_) => Err(SiloError::FueraDeRango),
        }
    }

    /// Delivers a pulse of `pulso` kilograms, or fails with `SinAlimento` when the
    /// silo holds less.
    pub fn entregar_pulso(&mut self, pulso: u32) -> (r: Result<(), SiloError>)
        ensures
            Silo::tras_entregar(*old(self), pulso, *final(self), r),
    {
        let alimento_actual = self.get_alimento();
        if pulso > alimento_actual {
            return Err(SiloError::SinAlimento);
        }
        match self.set_alimento(alimento_actual - pulso) {
            Ok(()) => Ok(()),
            Err(SiloError::FueraDeRango) => Err(SiloError::SinAlimento),
            Err(_) => Err(SiloError::ErrorInesperado),
        }
    }

    /// The feed currently held.
    pub fn get_alimento(&self) -> (r: u32)
        ensures
            r == self.alimento(),
            r <= self.capacidad(),
    {
        self.alimento.get()
    }

    /// The feed ever loaded.
    pub fn get_historico(&self) -> (r: u32)
        ensures
            r == self.historico(),
    {
        self.historico.get()
    }

    /// The identity of this silo.
    pub fn get_id(&self) -> (r: Uuid)
        ensures
            r == self.identidad(),
    {
        self.id
    }
}

/// Historical monotonicity: over any run of `set_alimento` and `entregar_pulso`
/// calls, the historical counter never decreases. A successful `set_alimento(n)`
/// above the previous feed raises it by exactly `n - previous`; every other call
/// leaves it as it was.
pub proof fn ley_historico(estados: Seq<Silo>, ops: Seq<OperacionSilo>, rs: Seq<Result<(), SiloError>>)
    requires
        estados.len() == ops.len() + 1,
        rs.len() == ops.len(),
        forall|k: int| 0 <= k < ops.len() ==> Silo::tras(#[trigger] estados[k], ops[k], estados[k + 1], rs[k]),
    ensures
        forall|i: int, j: int|
            0 <= i <= j < estados.len() ==> #[trigger] estados[i].historico() <= #[trigger] estados[j].historico(),
        forall|k: int|
            0 <= k < ops.len() ==> #[trigger] estados[k + 1].historico() == match ops[k] {
                OperacionSilo::FijarAlimento(n) => if rs[k] is Ok && n > estados[k].alimento() {
                    estados[k].historico() + (n - estados[k].alimento())
                } else {
                    estados[k].historico() as int
                },
                OperacionSilo::EntregarPulso(_) => estados[k].historico() as int,
            },
{
    assert forall|k: int| 0 <= k < ops.len() implies estados[k].historico() <= #[trigger] estados[k + 1].historico() by {
        assert(Silo::tras(estados[k], ops[k], estados[k + 1], rs[k]));
    }
    assert forall|i: int, j: int| 0 <= i <= j < estados.len() implies #[trigger] estados[i].historico()
        <= #[trigger] estados[j].historico() by {
        lema_historico_creciente(estados, ops.len() as int, i, j);
    }
    assert forall|k: int| 0 <= k < ops.len() implies #[trigger] estados[k + 1].historico() == match ops[k] {
        OperacionSilo::FijarAlimento(n) => if rs[k] is Ok && n > estados[k].alimento() {
            estados[k].historico() + (n - estados[k].alimento())
        } else {
            estados[k].historico() as int
        },
        OperacionSilo::EntregarPulso(_) => estados[k].historico() as int,
    } by {
        assert(Silo::tras(estados[k], ops[k], estados[k + 1], rs[k]));
    }
}

proof fn lema_historico_creciente(estados: Seq<Silo>, n: int, i: int, j: int)
    requires
        estados.len() == n + 1,
        0 <= i <= j < estados.len(),
        forall|k: int| 0 <= k < n ==> estados[k].historico() <= #[trigger] estados[k + 1].historico(),
    ensures
        estados[i].historico() <= estados[j].historico(),
    decreases j - i,
{
    if i < j {
        lema_historico_creciente(estados, n, i, j - 1);
        assert(estados[(j - 1) + 1].historico() >= estados[j - 1].historico());
    }
}

/// Delivery law: delivering at most the feed held lowers it by exactly that amount
/// and keeps the historical counter; asking for more fails and changes neither.
pub proof fn ley_entrega(antes: Silo, p: u32, despues: Silo, r: Result<(), SiloError>)
    requires
        Silo::tras_entregar(antes, p, despues, r),
    ensures
        p <= antes.alimento() ==> r is Ok && despues.alimento() == antes.alimento() - p
            && despues.historico() == antes.historico(),
        p > antes.alimento() ==> r == Err::<(), SiloError>(SiloError::SinAlimento)
            && despues.alimento() == antes.alimento() && despues.historico() == antes.historico(),
{
}

} // verus!
