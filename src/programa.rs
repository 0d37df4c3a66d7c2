//! The sequencer: runs a ration's cycles against the blower, the doser and the
//! silo, one pulse at a time.
//!
//! The run is a state machine. `Programa::paso` takes the machine one step: it
//! drives the hardware and says which phase comes next and how many
//! milliseconds must pass before that phase begins. Waiting is left to the
//! caller; `Programa::iniciar` runs the whole machine without waiting.
use vstd::prelude::*;

use crate::ciclo::Pauta;
use crate::dosificador::Dosificador;
use crate::errors::SiloError;
use crate::racion::Racion;
use crate::silo::Silo;
use crate::soplador::{Soplador, CALENTAMIENTO_MS};

verus! {

/// Where a run stands.
#[derive(PartialEq, Eq, Structural, Debug, Clone, Copy)]
pub enum Fase {
    /// Cycle `i` is about to start: the blower is switched on.
    EnCiclo(usize),
    /// Pulse `j` (counted from 1) of cycle `i` is about to be delivered.
    EnPulso(usize, u32),
    /// Pulse `j` of cycle `i` has been delivered and the doser is open.
    Dosificando(usize, u32),
    /// Every pulse of cycle `i` is done; the ration's wait follows.
    EntreCiclos(usize),
    /// The run is complete.
    Reposo,
    /// The run stopped at a cycle with a zero pulse count, duration or wait.
    Abortado,
}

/// One step of a run: the phase that comes next and the milliseconds to let
/// pass before it.
#[derive(PartialEq, Eq, Structural, Debug, Clone, Copy)]
pub struct Paso {
    pub siguiente: Fase,
    pub espera: u32,
}

/// How a run that met no shortage of feed ended.
#[derive(PartialEq, Eq, Structural, Debug, Clone, Copy)]
pub enum Fin {
    /// Every cycle ran.
    Completado,
    /// A cycle with a zero pulse count, duration or wait stopped the run.
    Abortado,
}

/// A cycle that may not run: one of its three values is zero.
pub open spec fn incompleta(p: Pauta) -> bool {
    p.pulsos == 0 || p.duracion == 0 || p.espera == 0
}

/// Kilograms one pulse of a cycle delivers: the doser's rate times the whole
/// seconds of the pulse.
pub open spec fn dosis(entrega: u32, p: Pauta) -> nat {
    (entrega as nat) * ((p.duracion / 1000) as nat)
}

/// `n` copies of `d`.
pub open spec fn repetir(d: nat, n: nat) -> Seq<nat> {
    Seq::new(n, |_k: int| d)
}

/// The number of cycles a run reaches before the first incomplete one.
pub open spec fn alcance(ps: Seq<Pauta>) -> nat
    decreases ps.len(),
{
    if ps.len() == 0 || incompleta(ps[0]) {
        0
    } else {
        1 + alcance(ps.drop_first())
    }
}

/// The deliveries of every pulse of the first `n` cycles, in order.
pub open spec fn entregas(ps: Seq<Pauta>, entrega: u32, n: nat) -> Seq<nat>
    decreases n,
{
    if n == 0 {
        seq![]
    } else {
        entregas(ps, entrega, (n - 1) as nat) + repetir(dosis(entrega, ps[n - 1]), ps[n - 1].pulsos as nat)
    }
}

/// The deliveries of a whole run, pulse by pulse, in order.
pub open spec fn plan(ps: Seq<Pauta>, entrega: u32) -> Seq<nat> {
    entregas(ps, entrega, alcance(ps))
}

/// The sum of a sequence.
pub open spec fn suma(s: Seq<nat>) -> nat
    decreases s.len(),
{
    if s.len() == 0 {
        0
    } else {
        suma(s.drop_last()) + s.last()
    }
}

/// The phases from which a step can be taken: those that name an existing cycle.
pub open spec fn admitida(ps: Seq<Pauta>, f: Fase) -> bool {
    match f {
        Fase::EnPulso(i, _) => i < ps.len(),
        Fase::Dosificando(i, _) => i < ps.len(),
        Fase::EntreCiclos(i) => i < ps.len(),
        _ => true,
    }
}

/// The phase that follows `f`.
pub open spec fn transicion(ps: Seq<Pauta>, f: Fase) -> Fase {
    match f {
        Fase::EnCiclo(i) => if i >= ps.len() {
            Fase::Reposo
        } else if incompleta(ps[i as int]) {
            Fase::Abortado
        } else {
            Fase::EnPulso(i, 1)
        },
        Fase::EnPulso(i, j) => Fase::Dosificando(i, j),
        Fase::Dosificando(i, j) => if j < ps[i as int].pulsos {
            Fase::EnPulso(i, (j + 1) as u32)
        } else {
            Fase::EntreCiclos(i)
        },
        Fase::EntreCiclos(i) => Fase::EnCiclo((i + 1) as usize),
        Fase::Reposo => Fase::Reposo,
        Fase::Abortado => Fase::Abortado,
    }
}

/// The milliseconds to let pass after the step from `f`: the blower's spin-up
/// after it is switched on, the pulse's duration while the doser is open, the
/// cycle's wait after a pulse, and the ration's wait after a cycle.
pub open spec fn demora(ps: Seq<Pauta>, espera_racion: u32, f: Fase) -> u32 {
    match f {
        Fase::EnCiclo(i) => if i < ps.len() { CALENTAMIENTO_MS } else { 0 },
        Fase::EnPulso(i, _) => ps[i as int].duracion,
        Fase::Dosificando(i, _) => ps[i as int].espera,
        Fase::EntreCiclos(_) => espera_racion,
        _ => 0,
    }
}

/// Whether the step from `f` switches the blower on.
pub open spec fn enciende(ps: Seq<Pauta>, f: Fase) -> bool {
    match f {
        Fase::EnCiclo(i) => i < ps.len(),
        _ => false,
    }
}

/// The state of the doser after the step from `f`, which was `antes` before it.
pub open spec fn doser_tras(f: Fase, antes: bool) -> bool {
    match f {
        Fase::EnPulso(_, _) => true,
        Fase::Dosificando(_, _) => false,
        _ => antes,
    }
}

/// The deliveries made before a run reaches phase `f`.
spec fn hechas(ps: Seq<Pauta>, entrega: u32, f: Fase) -> Seq<nat> {
    match f {
        Fase::EnCiclo(i) => entregas(ps, entrega, i as nat),
        Fase::EnPulso(i, j) => entregas(ps, entrega, i as nat) + repetir(
            dosis(entrega, ps[i as int]),
            (j - 1) as nat,
        ),
        Fase::Dosificando(i, j) => entregas(ps, entrega, i as nat) + repetir(dosis(entrega, ps[i as int]), j as nat),
        Fase::EntreCiclos(i) => entregas(ps, entrega, (i + 1) as nat),
        _ => seq![],
    }
}

/// The phases a run from `EnCiclo(0)` passes through before it ends.
spec fn alcanzable(ps: Seq<Pauta>, f: Fase) -> bool {
    match f {
        Fase::EnCiclo(i) => i <= ps.len() && forall|k: int| 0 <= k < i ==> !incompleta(#[trigger] ps[k]),
        Fase::EnPulso(i, j) => {
            &&& i < ps.len()
            &&& forall|k: int| 0 <= k <= i ==> !incompleta(#[trigger] ps[k])
            &&& 1 <= j <= ps[i as int].pulsos
        },
        Fase::Dosificando(i, j) => {
            &&& i < ps.len()
            &&& forall|k: int| 0 <= k <= i ==> !incompleta(#[trigger] ps[k])
            &&& 1 <= j <= ps[i as int].pulsos
        },
        Fase::EntreCiclos(i) => i < ps.len() && forall|k: int| 0 <= k <= i ==> !incompleta(#[trigger] ps[k]),
        _ => false,
    }
}

/// First part of the measure that each step lowers: the cycles still ahead.
spec fn ciclos_restantes(ps: Seq<Pauta>, f: Fase) -> int {
    match f {
        Fase::EnCiclo(i) => ps.len() + 1 - i,
        Fase::EnPulso(i, _) => ps.len() + 1 - i,
        Fase::Dosificando(i, _) => ps.len() + 1 - i,
        Fase::EntreCiclos(i) => ps.len() + 1 - i,
        _ => 0,
    }
}

/// Second part of the measure: the steps left within the current cycle.
spec fn pasos_restantes(ps: Seq<Pauta>, f: Fase) -> int {
    match f {
        Fase::EnCiclo(i) => if i < ps.len() { 2 * ps[i as int].pulsos + 2 } else { 0 },
        Fase::EnPulso(i, j) => 2 * (ps[i as int].pulsos - j) + 2,
        Fase::Dosificando(i, j) => 2 * (ps[i as int].pulsos - j) + 1,
        _ => 0,
    }
}

proof fn lema_alcance(ps: Seq<Pauta>)
    ensures
        alcance(ps) <= ps.len(),
        forall|k: int| 0 <= k < alcance(ps) ==> !incompleta(#[trigger] ps[k]),
        alcance(ps) < ps.len() ==> incompleta(ps[alcance(ps) as int]),
    decreases ps.len(),
{
    if ps.len() > 0 && !incompleta(ps[0]) {
        let resto = ps.drop_first();
        lema_alcance(resto);
        assert forall|k: int| 0 <= k < alcance(ps) implies !incompleta(#[trigger] ps[k]) by {
            if k > 0 {
                assert(ps[k] == resto[k - 1]);
            }
        }
        if alcance(ps) < ps.len() {
            assert(ps[alcance(ps) as int] == resto[alcance(resto) as int]);
        }
    }
}

proof fn lema_alcance_es(ps: Seq<Pauta>, i: int)
    requires
        0 <= i <= ps.len(),
        forall|k: int| 0 <= k < i ==> !incompleta(#[trigger] ps[k]),
        i == ps.len() || incompleta(ps[i]),
    ensures
        alcance(ps) == i,
{
    lema_alcance(ps);
    if alcance(ps) < i {
        assert(!incompleta(ps[alcance(ps) as int]));
    }
    if alcance(ps) > i {
        assert(!incompleta(ps[i]));
    }
}

proof fn lema_prefijo(ps: Seq<Pauta>, entrega: u32, n: nat, k: nat)
    requires
        n <= k,
    ensures
        entregas(ps, entrega, n).len() <= entregas(ps, entrega, k).len(),
        entregas(ps, entrega, k).take(entregas(ps, entrega, n).len() as int) =~= entregas(ps, entrega, n),
    decreases k,
{
    if n < k {
        let prev = (k - 1) as nat;
        lema_prefijo(ps, entrega, n, prev);
        let a = entregas(ps, entrega, n);
        let b = entregas(ps, entrega, prev);
        let c = entregas(ps, entrega, k);
        assert(c == b + repetir(dosis(entrega, ps[k - 1]), ps[k - 1].pulsos as nat));
        assert forall|x: int| 0 <= x < a.len() implies c.take(a.len() as int)[x] == a[x] by {
            assert(b.take(a.len() as int)[x] == a[x]);
        }
    }
}

proof fn lema_suma_push(s: Seq<nat>, x: nat)
    ensures
        suma(s.push(x)) == suma(s) + x,
{
    assert(s.push(x).drop_last() =~= s);
}

proof fn lema_suma_take(s: Seq<nat>, k: int)
    requires
        0 <= k <= s.len(),
    ensures
        suma(s.take(k)) <= suma(s),
    decreases s.len(),
{
    if k < s.len() {
        lema_suma_take(s.drop_last(), k);
        assert(s.drop_last().take(k) =~= s.take(k));
    } else {
        assert(s.take(k) =~= s);
    }
}

/// Runs one ration.
pub struct Programa<'a> {
    racion: &'a Racion<'a>,
}

impl<'a> Programa<'a> {
    /// The ration run.
    pub closed spec fn racion(self) -> Racion<'a> {
        *self.racion
    }

    /// A sequencer for the given ration.
    pub fn new(racion: &'a Racion<'a>) -> (r: Programa<'a>)
        ensures
            r.racion() == *racion,
    {
        Programa { racion }
    }

    /// Whether a step can be taken from `fase`.
    pub fn admite(&self, fase: Fase) -> (r: bool)
        ensures
            r == admitida(self.racion().pautas(), fase),
    {
        let n = self.racion.get_ciclos().len();
        match fase {
            Fase::EnPulso(i, _) => i < n,
            Fase::Dosificando(i, _) => i < n,
            Fase::EntreCiclos(i) => i < n,
            _ => true,
        }
    }

    /// Takes the run one step from `fase`.
    ///
    /// Starting a cycle switches the blower on; the cycle then runs unless one of
    /// its values is zero, which aborts the run. A pulse opens the doser and
    /// delivers the doser's rate times the pulse's whole seconds from the silo,
    /// failing with `SinAlimento` when the silo holds less; the failure ends the
    /// run with the doser open. After the pulse's duration the doser closes.
    pub fn paso(&self, fase: Fase, soplador: &mut Soplador, doser: &mut Dosificador, silo: &mut Silo) -> (r: Result<
        Paso,
        SiloError,
    >)
        requires
            admitida(self.racion().pautas(), fase),
        ensures
            ({
                let ps = self.racion().pautas();
                &&& r is Ok ==> r->Ok_0 == (Paso {
                    siguiente: transicion(ps, fase),
                    espera: demora(ps, self.racion().espera(), fase),
                })
                &&& final(soplador).estado() == (old(soplador).estado() || enciende(ps, fase))
                &&& final(soplador).potencia() == old(soplador).potencia()
                &&& final(soplador).identidad() == old(soplador).identidad()
                &&& final(doser).estado() == doser_tras(fase, old(doser).estado())
                &&& final(doser).entrega() == old(doser).entrega()
                &&& final(doser).identidad() == old(doser).identidad()
                &&& final(silo).capacidad() == old(silo).capacidad()
                &&& final(silo).historico() == old(silo).historico()
                &&& final(silo).identidad() == old(silo).identidad()
                &&& match fase {
                    Fase::EnPulso(i, _) => {
                        let d = dosis(old(doser).entrega(), ps[i as int]);
                        &&& (r is Ok <==> d <= old(silo).alimento())
                        &&& (r is Ok ==> final(silo).alimento() == old(silo).alimento() - d)
                        &&& (r is Err ==> r == Err::<Paso, SiloError>(SiloError::SinAlimento)
                            && *final(silo) == *old(silo))
                    },
                    _ => r is Ok && *final(silo) == *old(silo),
                }
            }),
    {
        let ciclos = self.racion.get_ciclos();
        assert(ciclos@.len() == self.racion().pautas().len());
        match fase {
            Fase::EnCiclo(i) => {
                if i >= ciclos.len() {
                    return Ok(Paso { siguiente: Fase::Reposo, espera: 0 });
                }
                soplador.set_estado(true);
                let ciclo = ciclos[i];
                let pulsos = ciclo.get_pulsos();
                let duracion = ciclo.get_pulso_duracion();
                let espera = ciclo.get_pulso_espera();
                if pulsos == 0 || duracion == 0 || espera == 0 {
                    Ok(Paso { siguiente: Fase::Abortado, espera: CALENTAMIENTO_MS })
                } else {
                    Ok(Paso { siguiente: Fase::EnPulso(i, 1), espera: CALENTAMIENTO_MS })
                }
            },
            Fase::EnPulso(i, j) => {
                let ciclo = ciclos[i];
                let duracion = ciclo.get_pulso_duracion();
                let tasa = doser.get_entrega() as u64;
                let segundos = (duracion / 1000) as u64;
                assert(tasa * segundos <= 0xffff_ffff_ffff_ffff) by (nonlinear_arith)
                    requires
                        tasa <= 0xffff_ffff,
                        segundos <= 0xffff_ffff,
                ;
                let entregado = tasa * segundos;
                doser.set_estado(true);
                if entregado > 0xffff_ffff {
                    return Err(SiloError::SinAlimento);
                }
                match silo.entregar_pulso(entregado as u32) {
                    Ok(()) => Ok(Paso { siguiente: Fase::Dosificando(i, j), espera: duracion }),
                    Err(e) => Err(e),
                }
            },
            Fase::Dosificando(i, j) => {
                doser.set_estado(false);
                let ciclo = ciclos[i];
                let siguiente = if j < ciclo.get_pulsos() {
                    Fase::EnPulso(i, j + 1)
                } else {
                    Fase::EntreCiclos(i)
                };
                Ok(Paso { siguiente, espera: ciclo.get_pulso_espera() })
            },
            Fase::EntreCiclos(i) => {
                let n = ciclos.len();
                assert(i < n);
                Ok(Paso { siguiente: Fase::EnCiclo(i + 1), espera: self.racion.get_ciclo_espera() })
            },
            Fase::Reposo => Ok(Paso { siguiente: Fase::Reposo, espera: 0 }),
            Fase::Abortado => Ok(Paso { siguiente: Fase::Abortado, espera: 0 }),
        }
    }

    /// Runs the ration from its first cycle to its end, taking every step of
    /// `paso` without waiting.
    ///
    /// The run delivers `plan`: each pulse of each cycle up to the first one with
    /// a zero value. It succeeds exactly when the silo holds the whole plan; it
    /// is `Completado` when no cycle had a zero value and `Abortado` otherwise.
    /// When the silo runs short it fails with `SinAlimento` at the first pulse
    /// that asks for more than is left, after the pulses before it were delivered.
    pub fn iniciar(&self, soplador: &mut Soplador, doser: &mut Dosificador, silo: &mut Silo) -> (r: Result<
        Fin,
        SiloError,
    >)
        ensures
            ({
                let ps = self.racion().pautas();
                let pl = plan(ps, old(doser).entrega());
                let inv0 = old(silo).alimento() as int;
                &&& (r is Ok <==> suma(pl) <= inv0)
                &&& (r == Ok::<Fin, SiloError>(Fin::Completado) <==> r is Ok && alcance(ps) == ps.len())
                &&& (r is Ok ==> final(silo).alimento() == inv0 - suma(pl))
                &&& (r is Err ==> r == Err::<Fin, SiloError>(SiloError::SinAlimento) && exists|m: int|
                    0 <= m < pl.len() && suma(pl.take(m)) <= inv0 < suma(#[trigger] pl.take(m + 1))
                        && final(silo).alimento() == inv0 - suma(pl.take(m)))
                &&& final(silo).capacidad() == old(silo).capacidad()
                &&& final(silo).historico() == old(silo).historico()
                &&& final(silo).identidad() == old(silo).identidad()
                &&& final(soplador).estado() == (old(soplador).estado() || ps.len() > 0)
                &&& final(soplador).potencia() == old(soplador).potencia()
                &&& final(soplador).identidad() == old(soplador).identidad()
                &&& final(doser).estado() == if r is Err {
                    true
                } else if pl.len() > 0 {
                    false
                } else {
                    old(doser).estado()
                }
                &&& final(doser).entrega() == old(doser).entrega()
                &&& final(doser).identidad() == old(doser).identidad()
            }),
    {
        let ghost ps = self.racion().pautas();
        let ghost e = doser.entrega();
        let ghost inv0 = silo.alimento() as int;
        let n = self.racion.get_ciclos().len();
        let mut fase = Fase::EnCiclo(0);
        loop
            invariant
                ps == self.racion().pautas(),
                ps.len() == n,
                alcanzable(ps, fase),
                e == old(doser).entrega(),
                inv0 == old(silo).alimento(),
                silo.alimento() + suma(hechas(ps, e, fase)) == inv0,
                silo.capacidad() == old(silo).capacidad(),
                silo.historico() == old(silo).historico(),
                silo.identidad() == old(silo).identidad(),
                soplador.estado() == (old(soplador).estado() || fase != Fase::EnCiclo(0)),
                soplador.potencia() == old(soplador).potencia(),
                soplador.identidad() == old(soplador).identidad(),
                doser.estado() == if fase is Dosificando {
                    true
                } else if hechas(ps, e, fase).len() > 0 {
                    false
                } else {
                    old(doser).estado()
                },
                doser.entrega() == e,
                doser.identidad() == old(doser).identidad(),
            decreases ciclos_restantes(ps, fase), pasos_restantes(ps, fase),
        {
            let ghost h = hechas(ps, e, fase);
            let paso = match self.paso(fase, soplador, doser, silo) {
                Ok(p) => p,
                Err(err) => {
                    proof {
                        if let Fase::EnPulso(i, j) = fase {
                            let d = dosis(e, ps[i as int]);
                            let pl = plan(ps, e);
                            let m = h.len() as int;
                            lema_alcance(ps);
                            assert(alcance(ps) > i);
                            let mid = entregas(ps, e, (i + 1) as nat);
                            lema_prefijo(ps, e, (i + 1) as nat, alcance(ps));
                            assert(mid == entregas(ps, e, i as nat) + repetir(d, ps[i as int].pulsos as nat));
                            assert(mid.take(m + 1) =~= h.push(d));
                            assert(pl.take(m + 1) =~= mid.take(m + 1));
                            assert(pl.take(m) =~= h);
                            lema_suma_push(h, d);
                            lema_suma_take(pl, m + 1);
                        }
                    }
                    return Err(err);
                },
            };
            match paso.siguiente {
                Fase::Reposo => {
                    proof {
                        if let Fase::EnCiclo(i) = fase {
                            lema_alcance_es(ps, i as int);
                            assert(hechas(ps, e, fase) == plan(ps, e));
                        }
                    }
                    return Ok(Fin::Completado);
                },
                Fase::Abortado => {
                    proof {
                        if let Fase::EnCiclo(i) = fase {
                            lema_alcance_es(ps, i as int);
                            assert(hechas(ps, e, fase) == plan(ps, e));
                        }
                    }
                    return Ok(Fin::Abortado);
                },
                _ => {},
            }
            proof {
                match fase {
                    Fase::EnCiclo(i) => {
                        assert(hechas(ps, e, paso.siguiente) =~= h);
                    },
                    Fase::EnPulso(i, j) => {
                        let d = dosis(e, ps[i as int]);
                        assert(hechas(ps, e, paso.siguiente) =~= h.push(d));
                        lema_suma_push(h, d);
                    },
                    Fase::Dosificando(i, j) => {
                        assert(hechas(ps, e, paso.siguiente) =~= h);
                    },
                    _ => {},
                }
            }
            fase = paso.siguiente;
        }
    }
}

} // verus!
