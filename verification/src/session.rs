//! The session replay harness.
//!
//! Interpreter internal state cannot be assumed to survive between
//! external calls, so a session keeps only its four immutable program
//! sources, a tick counter, and the first snapshot it was ever given.  On
//! every external step it replays all ticks from that cached snapshot; the
//! caller supplies, for each replayed tick, the four interpreter outcomes
//! of that tick, produced by interpreters rebuilt from the stored sources.

use vstd::prelude::*;

use crate::engine::has_failure;
use crate::engine::hits;
use crate::engine::init_model;
use crate::engine::lemma_idle_tick;
use crate::engine::ok_statuses;
use crate::engine::resolve_tick;
use crate::engine::tick_model;
use crate::engine::validate_programs;
use crate::error::EngineError;
use crate::error::RuntimeCause;
use crate::error::SrcLocation;
use crate::status::GameStatus;
use crate::status::TankStatus;
use crate::status::NUM_TANKS;
use crate::status::cleared;
use crate::status::same_pos;

verus! {

/// The view of a caller-supplied outcome table: one row of four
/// interpreter outcomes per replayed tick.
pub open spec fn table_view(ticks: Seq<Vec<Result<TankStatus, RuntimeCause>>>) -> Seq<
    Seq<Result<TankStatus, RuntimeCause>>,
> {
    ticks.map_values(|row: Vec<Result<TankStatus, RuntimeCause>>| row@)
}

/// Replaying a sequence of ticks from the snapshot `init`: each tick
/// either advances the snapshot through the tick resolver, or stops the
/// whole replay with its failure.
pub open spec fn replay_model(
    init: Seq<TankStatus>,
    ticks: Seq<Seq<Result<TankStatus, RuntimeCause>>>,
    wall_rule: bool,
) -> Result<Seq<TankStatus>, EngineError>
    decreases ticks.len(),
{
    if ticks.len() == 0 {
        Ok(init)
    } else {
        match tick_model(init, ticks[0], wall_rule) {
            Ok(s) => replay_model(s, ticks.drop_first(), wall_rule),
            Err(e) => Err(e),
        }
    }
}

/// Holds the four program sources while a caller fills the slots one by
/// one, before a session is opened over them.
pub struct ApiInitWrapper {
    programs: Vec<String>,
}

impl ApiInitWrapper {
    /// The program sources, one per slot.
    pub closed spec fn progs(&self) -> Seq<String> {
        self.programs@
    }

    /// The wrapper always holds exactly one program per slot.
    pub open spec fn wf(&self) -> bool {
        self.progs().len() == NUM_TANKS
    }

    /// Four empty programs, one per slot.
    pub fn new() -> (r: Self)
        ensures
            r.wf(),
            forall|k: int| 0 <= k < NUM_TANKS ==> (#[trigger] r.progs()[k])@ == Seq::<
                char,
            >::empty(),
    {
        let mut programs: Vec<String> = Vec::new();
        let mut k: usize = 0;
        while k < NUM_TANKS
            invariant
                k <= NUM_TANKS,
                programs@.len() == k,
                forall|m: int| 0 <= m < k ==> (#[trigger] programs@[m])@ == Seq::<char>::empty(),
            decreases NUM_TANKS - k,
        {
            programs.push(String::new());
            k = k + 1;
        }
        ApiInitWrapper { programs }
    }

    /// Reads back the program sources, so the outside interpreter can be
    /// asked to parse each of them.
    pub fn programs(&self) -> (r: &Vec<String>)
        ensures
            r@ == self.progs(),
    {
        &self.programs
    }

    /// Replaces the program of slot `idx`.  An out-of-range slot is a
    /// fatal indexing fault, so it is excluded up front.
    pub fn set_prog(&mut self, prog: String, idx: usize)
        requires
            old(self).wf(),
            idx < NUM_TANKS,
        ensures
            final(self).progs() == old(self).progs().update(idx as int, prog),
    {
        self.programs[idx] = prog;
    }
}

/// The externally facing session: four immutable program sources, a tick
/// counter, and the snapshot cached from the first external step call.
pub struct EngineApi {
    step: usize,
    programs: Vec<String>,
    first_status_storage: Option<GameStatus>,
}

impl EngineApi {
    /// How many ticks this session has advanced.
    pub closed spec fn tick_count(&self) -> nat {
        self.step as nat
    }

    /// The stored program sources, one per slot.
    pub closed spec fn progs(&self) -> Seq<String> {
        self.programs@
    }

    /// The snapshot cached on the first external step call, if any yet.
    pub closed spec fn stored(&self) -> Option<GameStatus> {
        self.first_status_storage
    }

    /// A session holds one program per slot, and has a cached initial
    /// snapshot exactly from its first step on.
    pub open spec fn wf(&self) -> bool {
        &&& self.progs().len() == NUM_TANKS
        &&& (self.stored() is Some <==> self.tick_count() > 0)
        &&& (self.stored() matches Some(g) ==> g.wf())
    }

    /// Opens a session at tick zero over the wrapper's four programs,
    /// with no cached snapshot yet, given the per-slot parse outcome that
    /// the outside interpreter produced for each program.  The session is
    /// opened exactly when every program parsed; otherwise the first slot
    /// whose program did not parse is reported with its location, and a
    /// wrapper with any other program count is rejected outright — never
    /// truncated or padded.
    pub fn new(progs: ApiInitWrapper, parses: &Vec<Result<(), SrcLocation>>) -> (r: Result<
        EngineApi,
        EngineError,
    >)
        requires
            parses@.len() == progs.progs().len(),
        ensures
            (match r {
                Ok(api) => init_model(parses@) == Ok::<(), EngineError>(()) && api.wf()
                    && api.tick_count() == 0 && api.progs() == progs.progs() && api.stored()
                    is None,
                Err(e) => init_model(parses@) == Err::<(), EngineError>(e),
            }),
    {
        let ApiInitWrapper { programs } = progs;
        match validate_programs(parses) {
            Ok(()) => Ok(EngineApi { step: 0, programs, first_status_storage: None }),
            Err(e) => Err(e),
        }
    }

    /// Reads back the stored program sources, for rebuilding the four
    /// interpreters on each external call.
    pub fn programs(&self) -> (r: &Vec<String>)
        ensures
            r@ == self.progs(),
    {
        &self.programs
    }

    /// Reads back the tick counter.
    pub fn tick(&self) -> (r: usize)
        ensures
            r == self.tick_count(),
    {
        self.step
    }

    /// Reads back the cached initial snapshot, once a first step seeded it.
    pub fn first_status(&self) -> (r: &Option<GameStatus>)
        ensures
            *r == self.stored(),
    {
        &self.first_status_storage
    }

    /// One external step call.  The first call caches `status` as the
    /// initial snapshot; later calls ignore their argument and replay from
    /// the cache.  The counter is incremented, and all ticks up to it are
    /// replayed from the cached snapshot through the tick resolver, one
    /// caller-supplied row of four interpreter outcomes per tick; the last
    /// snapshot is returned, or the first failure encountered.
    pub fn step(
        &mut self,
        status: &GameStatus,
        ticks: &Vec<Vec<Result<TankStatus, RuntimeCause>>>,
    ) -> (r: Result<GameStatus, EngineError>)
        requires
            old(self).wf(),
            status.wf(),
            ticks@.len() == old(self).tick_count() + 1,
            forall|t: int| 0 <= t < ticks@.len() ==> (#[trigger] ticks@[t])@.len() == NUM_TANKS,
        ensures
            final(self).wf(),
            final(self).progs() == old(self).progs(),
            final(self).tick_count() == old(self).tick_count() + 1,
            old(self).tick_count() > 0 ==> final(self).stored() == old(self).stored(),
            old(self).tick_count() == 0 ==> (final(self).stored() matches Some(g) && g@
                == status@),
            ({
                let init = if old(self).tick_count() == 0 {
                    status@
                } else {
                    old(self).stored().unwrap()@
                };
                match r {
                    Ok(g) => g.wf() && replay_model(init, table_view(ticks@), false) == Ok::<
                        Seq<TankStatus>,
                        EngineError,
                    >(g@),
                    Err(e) => replay_model(init, table_view(ticks@), false) == Err::<
                        Seq<TankStatus>,
                        EngineError,
                    >(e),
                }
            }),
    {
        if self.step == 0 {
            self.first_status_storage = Some(status.duplicate());
        }
        self.step = ticks.len();
        let mut current = match &self.first_status_storage {
            Some(g) => g.duplicate(),
            None => vstd::pervasive::unreached(),
        };
        let ghost init = current@;
        let ghost table = table_view(ticks@);
        proof {
            assert(table.skip(0) =~= table);
        }
        let n = ticks.len();
        let mut t: usize = 0;
        while t < n
            invariant
                t <= n,
                n == ticks@.len(),
                forall|u: int| 0 <= u < n ==> (#[trigger] ticks@[u])@.len() == NUM_TANKS,
                table == table_view(ticks@),
                self.wf(),
                self.progs() == old(self).progs(),
                self.tick_count() == old(self).tick_count() + 1,
                old(self).tick_count() > 0 ==> self.stored() == old(self).stored(),
                old(self).tick_count() == 0 ==> (self.stored() matches Some(g) && g@ == status@),
                init == (if old(self).tick_count() == 0 {
                    status@
                } else {
                    old(self).stored().unwrap()@
                }),
                current.wf(),
                replay_model(init, table, false) == replay_model(
                    current@,
                    table.skip(t as int),
                    false,
                ),
            decreases n - t,
        {
            let outcome = resolve_tick(&current, &ticks[t], false);
            proof {
                assert(table.skip(t as int)[0] == table[t as int]);
                assert(table.skip(t as int).drop_first() =~= table.skip(t as int + 1));
            }
            match outcome {
                Ok(next) => {
                    current = next;
                },
                Err(e) => {
                    return Err(e);
                },
            }
            t = t + 1;
        }
        proof {
            assert(table.skip(n as int) =~= Seq::<Seq<Result<TankStatus, RuntimeCause>>>::empty());
        }
        Ok(current)
    }
}

/// Determinism: the replay is a function of the initial snapshot, the
/// interpreter outcomes and the wall-rule setting alone, so two
/// independently constructed sessions fed identical call sequences
/// produce identical snapshot sequences.
pub proof fn lemma_replay_deterministic(
    init_a: Seq<TankStatus>,
    init_b: Seq<TankStatus>,
    ticks_a: Seq<Seq<Result<TankStatus, RuntimeCause>>>,
    ticks_b: Seq<Seq<Result<TankStatus, RuntimeCause>>>,
    wall_a: bool,
    wall_b: bool,
)
    requires
        init_a == init_b,
        ticks_a == ticks_b,
        wall_a == wall_b,
    ensures
        replay_model(init_a, ticks_a, wall_a) == replay_model(init_b, ticks_b, wall_b),
{
}

/// Replay equivalence: replaying one tick more from the cached initial
/// snapshot is the same as replaying the previous ticks and then applying
/// the tick resolver once to the result — so replaying from the start on
/// every call agrees, for any number of ticks, with stepping a persistent
/// chain tick by tick.
pub proof fn lemma_replay_equivalence(
    init: Seq<TankStatus>,
    ticks: Seq<Seq<Result<TankStatus, RuntimeCause>>>,
    last: Seq<Result<TankStatus, RuntimeCause>>,
    wall_rule: bool,
)
    ensures
        replay_model(init, ticks.push(last), wall_rule) == (match replay_model(
            init,
            ticks,
            wall_rule,
        ) {
            Ok(s) => tick_model(s, last, wall_rule),
            Err(e) => Err::<Seq<TankStatus>, EngineError>(e),
        }),
    decreases ticks.len(),
{
    if ticks.len() == 0 {
        let pushed = ticks.push(last);
        assert(pushed.len() == 1);
        assert(pushed[0] == last);
        assert(pushed.drop_first() =~= Seq::<Seq<Result<TankStatus, RuntimeCause>>>::empty());
        assert(replay_model(init, ticks, wall_rule) == Ok::<Seq<TankStatus>, EngineError>(init));
        match tick_model(init, last, wall_rule) {
            Ok(s) => {
                assert(replay_model(s, pushed.drop_first(), wall_rule) == Ok::<
                    Seq<TankStatus>,
                    EngineError,
                >(s));
                assert(replay_model(init, pushed, wall_rule) == Ok::<
                    Seq<TankStatus>,
                    EngineError,
                >(s));
            },
            Err(e) => {
                assert(replay_model(init, pushed, wall_rule) == Err::<
                    Seq<TankStatus>,
                    EngineError,
                >(e));
            },
        }
    } else {
        assert(ticks.push(last)[0] == ticks[0]);
        assert(ticks.push(last).drop_first() =~= ticks.drop_first().push(last));
        match tick_model(init, ticks[0], wall_rule) {
            Ok(s) => {
                lemma_replay_equivalence(s, ticks.drop_first(), last, wall_rule);
            },
            Err(_) => {
            },
        }
    }
}

/// Whether one tick of a replay leaves slot `k` idle and untouched: every
/// slot's interpreter succeeds, `k`'s program neither moves it nor fires
/// (its outcome is exactly its cleared pre-tick status), no other slot's
/// line of fire covers `k`, and no other slot shares `k`'s cell.
pub open spec fn keeps_idle(
    pre: Result<Seq<TankStatus>, EngineError>,
    outs: Seq<Result<TankStatus, RuntimeCause>>,
    k: int,
) -> bool {
    &&& pre is Ok
    &&& 0 <= k < outs.len()
    &&& !has_failure(outs)
    &&& outs[k]->Ok_0 == cleared(pre->Ok_0[k])
    &&& forall|i: int| 0 <= i < outs.len() ==> !hits(ok_statuses(outs), i, k)
    &&& forall|j: int|
        0 <= j < outs.len() && j != k ==> !same_pos(ok_statuses(outs)[j], ok_statuses(outs)[k])
}

/// Idle conservation: with the wall rule off, an agent that every tick of
/// a replay leaves idle and untouched keeps its health and its position
/// across any number of ticks.  (With the wall rule on, standing still is
/// read as a blocked movement and costs health, so the rule must be off.)
pub proof fn lemma_idle_conservation(
    init: Seq<TankStatus>,
    ticks: Seq<Seq<Result<TankStatus, RuntimeCause>>>,
    k: int,
)
    requires
        forall|t: int|
            0 <= t < ticks.len() ==> keeps_idle(
                replay_model(init, #[trigger] ticks.take(t), false),
                ticks[t],
                k,
            ),
    ensures
        replay_model(init, ticks, false) matches Ok(s) && s[k].health == init[k].health
            && s[k].pos_i == init[k].pos_i && s[k].pos_j == init[k].pos_j,
    decreases ticks.len(),
{
    if ticks.len() == 0 {
        assert(replay_model(init, ticks, false) == Ok::<Seq<TankStatus>, EngineError>(init));
    } else {
        let n = ticks.len() as int;
        let front = ticks.take(n - 1);
        let last = ticks[n - 1];
        assert(ticks =~= front.push(last));
        assert forall|t: int| 0 <= t < front.len() implies keeps_idle(
            replay_model(init, #[trigger] front.take(t), false),
            front[t],
            k,
        ) by {
            assert(front.take(t) =~= ticks.take(t));
            assert(front[t] == ticks[t]);
        }
        lemma_idle_conservation(init, front, k);
        let s = replay_model(init, front, false)->Ok_0;
        assert(keeps_idle(replay_model(init, ticks.take(n - 1), false), ticks[n - 1], k));
        assert(ticks.take(n - 1) =~= front);
        lemma_idle_tick(s, last, k);
        lemma_replay_equivalence(init, front, last, false);
    }
}

} // verus!
