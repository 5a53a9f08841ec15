//! The tick resolver: one simulation step for all four tanks.
//!
//! A tick first advances every agent through its program interpreter (an
//! outside capability; the resolver receives the four outcomes as plain
//! values), then applies combat in a fixed order: line-of-sight shot
//! damage, the optional wall-collision rule, and inter-agent collision
//! damage.  If any interpreter failed, the whole tick is abandoned and no
//! slot's status is committed.

use vstd::prelude::*;

use crate::error::EngineError;
use crate::error::RuntimeCause;
use crate::error::SrcLocation;
use crate::status::GameStatus;
use crate::status::TankDirection;
use crate::status::TankStatus;
use crate::status::NUM_TANKS;
use crate::status::cleared;
use crate::status::health_after;
use crate::status::same_pos;

verus! {

/// Health lost by every tank struck by one shot.
pub const SHOT_DAMAGE: usize = 20;

/// Health lost by a tank whose movement was blocked by a wall, when the
/// wall rule is switched on.
pub const WALL_COLLISION_DAMAGE: usize = 15;

/// Health lost by every tank sharing its cell with another tank.
pub const DEFAULT_COLLISION_DAMAGE: usize = 15;

/// Whether `target` stands strictly along `shooter`'s facing axis, so that
/// a shot from `shooter` strikes it.  Positions are `(row, column)` pairs;
/// North means a smaller row, East a larger column, South a larger row and
/// West a smaller column, at the same coordinate on the other axis.
/// Distance is unbounded and tanks do not occlude one another.
pub open spec fn in_line_of_fire(shooter: TankStatus, target: TankStatus) -> bool {
    match shooter.dir {
        TankDirection::North => shooter.pos_j == target.pos_j && target.pos_i < shooter.pos_i,
        TankDirection::East => shooter.pos_i == target.pos_i && shooter.pos_j < target.pos_j,
        TankDirection::South => shooter.pos_j == target.pos_j && shooter.pos_i < target.pos_i,
        TankDirection::West => shooter.pos_i == target.pos_i && target.pos_j < shooter.pos_j,
    }
}

/// Whether slot `i` fired this tick and its shot strikes slot `k`.
/// A tank is never struck by its own shot.
pub open spec fn hits(s: Seq<TankStatus>, i: int, k: int) -> bool {
    0 <= i < s.len() && i != k && s[i].shot && in_line_of_fire(s[i], s[k])
}

/// How many of the slots below `n` hit slot `k` this tick.
pub open spec fn shot_count_upto(s: Seq<TankStatus>, k: int, n: int) -> nat
    decreases n,
{
    if n <= 0 {
        0nat
    } else {
        shot_count_upto(s, k, n - 1) + (if hits(s, n - 1, k) {
            1nat
        } else {
            0nat
        })
    }
}

/// How many shooters hit slot `k` this tick.  Several shooters striking the
/// same slot stack additively.
pub open spec fn shot_count(s: Seq<TankStatus>, k: int) -> nat {
    shot_count_upto(s, k, s.len() as int)
}

/// Slot `k` after shot resolution: one flat `SHOT_DAMAGE` per shooter that
/// hit it, and `got_shot` marked if any did.
pub open spec fn after_shots_one(s: Seq<TankStatus>, k: int) -> TankStatus {
    if shot_count(s, k) > 0 {
        TankStatus {
            health: health_after(s[k].health, (SHOT_DAMAGE * shot_count(s, k)) as nat),
            got_shot: true,
            ..s[k]
        }
    } else {
        s[k]
    }
}

/// The whole post-step snapshot after shot resolution.
pub open spec fn after_shots(s: Seq<TankStatus>) -> Seq<TankStatus> {
    Seq::new(s.len(), |k: int| after_shots_one(s, k))
}

/// The snapshot after the wall rule: when switched on, a tank whose
/// position did not change over the tick is taken as blocked by a wall and
/// loses `WALL_COLLISION_DAMAGE`.
pub open spec fn after_walls(pre: Seq<TankStatus>, s: Seq<TankStatus>, wall_rule: bool) -> Seq<
    TankStatus,
> {
    if wall_rule {
        Seq::new(
            s.len(),
            |k: int|
                if same_pos(pre[k], s[k]) {
                    TankStatus {
                        health: health_after(s[k].health, WALL_COLLISION_DAMAGE as nat),
                        ..s[k]
                    }
                } else {
                    s[k]
                },
        )
    } else {
        s
    }
}

/// Whether slot `k` shares its cell with any other slot.
pub open spec fn collided(s: Seq<TankStatus>, k: int) -> bool {
    exists|j: int| 0 <= j < s.len() && j != k && same_pos(s[j], s[k])
}

/// The snapshot after inter-agent collisions: every tank sharing a cell
/// with another loses `DEFAULT_COLLISION_DAMAGE`, once per tick no matter
/// how many tanks crowd the cell.
pub open spec fn after_collisions(s: Seq<TankStatus>) -> Seq<TankStatus> {
    Seq::new(
        s.len(),
        |k: int|
            if collided(s, k) {
                TankStatus {
                    health: health_after(s[k].health, DEFAULT_COLLISION_DAMAGE as nat),
                    ..s[k]
                }
            } else {
                s[k]
            },
    )
}

/// The combat pipeline applied to the post-step statuses, in the fixed
/// order: shots, wall rule, collisions.  `pre` is the snapshot from before
/// the tick; only the wall rule reads it.
pub open spec fn resolve_combat(
    pre: Seq<TankStatus>,
    stepped: Seq<TankStatus>,
    wall_rule: bool,
) -> Seq<TankStatus> {
    after_collisions(after_walls(pre, after_shots(stepped), wall_rule))
}

/// Whether any slot's outcome is a failure.
pub open spec fn has_failure<T, E>(outs: Seq<Result<T, E>>) -> bool {
    exists|i: int| 0 <= i < outs.len() && outs[i] is Err
}

/// The first slot whose outcome is a failure (the slots are worked in slot
/// order, so the first failure is the one reported); the length if none.
pub open spec fn first_failure<T, E>(outs: Seq<Result<T, E>>) -> int
    decreases outs.len(),
{
    if outs.len() == 0 {
        0
    } else if outs[0] is Err {
        0
    } else {
        1 + first_failure(outs.drop_first())
    }
}

/// The post-step statuses when every interpreter succeeded.
pub open spec fn ok_statuses(outs: Seq<Result<TankStatus, RuntimeCause>>) -> Seq<TankStatus> {
    Seq::new(outs.len(), |i: int| outs[i]->Ok_0)
}

/// One whole tick over the snapshot `pre`, given the four interpreter
/// outcomes: either every slot advanced and combat is resolved, or the
/// first failing slot is reported and nothing is committed.
pub open spec fn tick_model(
    pre: Seq<TankStatus>,
    outs: Seq<Result<TankStatus, RuntimeCause>>,
    wall_rule: bool,
) -> Result<Seq<TankStatus>, EngineError> {
    if has_failure(outs) {
        let i = first_failure(outs);
        Err(EngineError::RuntimeError(i as usize, outs[i]->Err_0))
    } else {
        Ok(resolve_combat(pre, ok_statuses(outs), wall_rule))
    }
}

/// The construction decision over the per-slot parse outcomes that the
/// outside interpreter produced, one per program in slot order: any count
/// other than one outcome per slot is rejected outright; otherwise the
/// first slot whose program did not parse is reported with its location;
/// otherwise construction may proceed.
pub open spec fn init_model(parses: Seq<Result<(), SrcLocation>>) -> Result<(), EngineError> {
    if parses.len() != NUM_TANKS {
        Err(EngineError::ArityError(parses.len() as usize))
    } else if has_failure(parses) {
        let i = first_failure(parses);
        Err(EngineError::InitError(i as usize, parses[i]->Err_0))
    } else {
        Ok(())
    }
}

/// Checks the per-slot parse outcomes before an engine or a session is
/// built: accepts exactly when there is one outcome per slot and every
/// program parsed, and otherwise reports the arity, or the first failing
/// slot and its parse error's location.
pub fn validate_programs(parses: &Vec<Result<(), SrcLocation>>) -> (r: Result<(), EngineError>)
    ensures
        r == init_model(parses@),
{
    if parses.len() != NUM_TANKS {
        return Err(EngineError::ArityError(parses.len()));
    }
    let mut i: usize = 0;
    while i < NUM_TANKS
        invariant
            i <= NUM_TANKS,
            parses@.len() == NUM_TANKS,
            forall|j: int| 0 <= j < i ==> parses@[j] is Ok,
        decreases NUM_TANKS - i,
    {
        let outcome = parses[i];
        match outcome {
            Ok(()) => {},
            Err(loc) => {
                proof {
                    lemma_first_failure_is(parses@, i as int);
                }
                return Err(EngineError::InitError(i, loc));
            },
        }
        i = i + 1;
    }
    assert(!has_failure(parses@));
    Ok(())
}

/// How many shooters hit slot `k`, counted over the whole snapshot.
fn count_shooters(stepped: &Vec<TankStatus>, k: usize) -> (count: usize)
    requires
        stepped@.len() == NUM_TANKS,
        k < NUM_TANKS,
    ensures
        count == shot_count(stepped@, k as int),
        count <= NUM_TANKS,
{
    let mut count: usize = 0;
    let mut i: usize = 0;
    while i < NUM_TANKS
        invariant
            i <= NUM_TANKS,
            k < NUM_TANKS,
            stepped@.len() == NUM_TANKS,
            count == shot_count_upto(stepped@, k as int, i as int),
            count <= i,
        decreases NUM_TANKS - i,
    {
        if i != k && stepped[i].shot {
            let me = stepped[i];
            let other = stepped[k];
            let hit = match me.dir {
                TankDirection::North => me.pos_j == other.pos_j && other.pos_i < me.pos_i,
                TankDirection::East => me.pos_i == other.pos_i && me.pos_j < other.pos_j,
                TankDirection::South => me.pos_j == other.pos_j && me.pos_i < other.pos_i,
                TankDirection::West => me.pos_i == other.pos_i && other.pos_j < me.pos_j,
            };
            if hit {
                count = count + 1;
            }
        }
        i = i + 1;
    }
    count
}

/// Applies the combat pipeline to the post-step statuses: shot damage,
/// then the wall rule, then inter-agent collisions.
fn apply_combat(pre: &GameStatus, stepped: &Vec<TankStatus>, wall_rule: bool) -> (r: Vec<
    TankStatus,
>)
    requires
        pre.wf(),
        stepped@.len() == NUM_TANKS,
    ensures
        r@ == resolve_combat(pre@, stepped@, wall_rule),
{
    // Shot resolution: one flat damage per shooter striking each slot.
    let mut shot_phase: Vec<TankStatus> = Vec::new();
    let mut k: usize = 0;
    while k < NUM_TANKS
        invariant
            k <= NUM_TANKS,
            stepped@.len() == NUM_TANKS,
            shot_phase@.len() == k,
            forall|m: int| 0 <= m < k ==> shot_phase@[m] == after_shots_one(stepped@, m),
        decreases NUM_TANKS - k,
    {
        let count = count_shooters(stepped, k);
        let mut st = stepped[k];
        if count > 0 {
            st.apply_damage(SHOT_DAMAGE * count);
            st.set_got_shot(true);
        }
        shot_phase.push(st);
        k = k + 1;
    }
    assert(shot_phase@ =~= after_shots(stepped@));

    // Wall rule: a tank whose position did not change was blocked by a wall.
    let mut wall_phase: Vec<TankStatus> = Vec::new();
    if wall_rule {
        let mut k: usize = 0;
        while k < NUM_TANKS
            invariant
                k <= NUM_TANKS,
                pre.wf(),
                shot_phase@ == after_shots(stepped@),
                shot_phase@.len() == NUM_TANKS,
                wall_phase@.len() == k,
                forall|m: int|
                    0 <= m < k ==> wall_phase@[m] == after_walls(pre@, shot_phase@, true)[m],
            decreases NUM_TANKS - k,
        {
            let mut st = shot_phase[k];
            let before = pre.get_tank_status(k);
            if before.pos_i == st.pos_i && before.pos_j == st.pos_j {
                st.apply_damage(WALL_COLLISION_DAMAGE);
            }
            wall_phase.push(st);
            k = k + 1;
        }
        assert(wall_phase@ =~= after_walls(pre@, shot_phase@, true));
    } else {
        wall_phase = shot_phase;
    }
    assert(wall_phase@ == after_walls(pre@, after_shots(stepped@), wall_rule));

    // Inter-agent collisions: every tank sharing a cell is damaged once.
    let mut result: Vec<TankStatus> = Vec::new();
    let mut k: usize = 0;
    while k < NUM_TANKS
        invariant
            k <= NUM_TANKS,
            wall_phase@ == after_walls(pre@, after_shots(stepped@), wall_rule),
            wall_phase@.len() == NUM_TANKS,
            result@.len() == k,
            forall|m: int| 0 <= m < k ==> result@[m] == after_collisions(wall_phase@)[m],
        decreases NUM_TANKS - k,
    {
        let mut collision = false;
        let mut j: usize = 0;
        while j < NUM_TANKS
            invariant
                j <= NUM_TANKS,
                k < NUM_TANKS,
                wall_phase@.len() == NUM_TANKS,
                collision <==> (exists|m: int|
                    0 <= m < j && m != k as int && same_pos(
                        wall_phase@[m],
                        wall_phase@[k as int],
                    )),
            decreases NUM_TANKS - j,
        {
            if j != k && wall_phase[j].pos_i == wall_phase[k].pos_i && wall_phase[j].pos_j
                == wall_phase[k].pos_j {
                collision = true;
            }
            j = j + 1;
        }
        let mut st = wall_phase[k];
        if collision {
            st.apply_damage(DEFAULT_COLLISION_DAMAGE);
        }
        result.push(st);
        k = k + 1;
    }
    assert(result@ =~= after_collisions(wall_phase@));
    result
}

/// Resolves one whole tick: takes the snapshot from before the tick and the
/// four interpreter outcomes, and either commits the next snapshot or
/// reports the first failing slot, committing nothing.
pub fn resolve_tick(
    pre: &GameStatus,
    outcomes: &Vec<Result<TankStatus, RuntimeCause>>,
    wall_rule: bool,
) -> (r: Result<GameStatus, EngineError>)
    requires
        pre.wf(),
        outcomes@.len() == NUM_TANKS,
    ensures
        (match r {
            Ok(g) => g.wf() && tick_model(pre@, outcomes@, wall_rule) == Ok::<
                Seq<TankStatus>,
                EngineError,
            >(g@),
            Err(e) => tick_model(pre@, outcomes@, wall_rule) == Err::<
                Seq<TankStatus>,
                EngineError,
            >(e),
        }),
{
    let mut stepped: Vec<TankStatus> = Vec::new();
    let mut i: usize = 0;
    while i < NUM_TANKS
        invariant
            i <= NUM_TANKS,
            outcomes@.len() == NUM_TANKS,
            stepped@.len() == i,
            forall|j: int| 0 <= j < i ==> outcomes@[j] is Ok,
            forall|j: int| 0 <= j < i ==> stepped@[j] == outcomes@[j]->Ok_0,
        decreases NUM_TANKS - i,
    {
        let outcome = outcomes[i];
        match outcome {
            Ok(st) => {
                stepped.push(st);
            },
            Err(cause) => {
                proof {
                    lemma_first_failure_is(outcomes@, i as int);
                }
                return Err(EngineError::RuntimeError(i, cause));
            },
        }
        i = i + 1;
    }
    assert(!has_failure(outcomes@));
    assert(stepped@ =~= ok_statuses(outcomes@));
    let mut next = pre.duplicate();
    let combat = apply_combat(pre, &stepped, wall_rule);
    next.set_tank_status(combat[0], 0);
    next.set_tank_status(combat[1], 1);
    next.set_tank_status(combat[2], 2);
    next.set_tank_status(combat[3], 3);
    assert(next@ =~= resolve_combat(pre@, stepped@, wall_rule));
    Ok(next)
}

/// The tick resolver bound to four program sources.
///
/// The programs run in the outside interpreter capability; the engine
/// keeps their sources so the capability can be rebuilt from them,
/// enforces the fixed arity, and resolves each tick from the four
/// interpreter outcomes.  The wall-collision rule is an explicit toggle,
/// off by default.
pub struct TanquesEngine {
    programs: Vec<String>,
    wall_rule: bool,
}

impl TanquesEngine {
    /// The program sources, one per slot.
    pub closed spec fn progs(&self) -> Seq<String> {
        self.programs@
    }

    /// Whether the wall-collision rule is switched on.
    pub closed spec fn wall(&self) -> bool {
        self.wall_rule
    }

    /// An engine always holds exactly one program per slot.
    pub open spec fn wf(&self) -> bool {
        self.progs().len() == NUM_TANKS
    }

    /// Builds an engine over exactly one program per slot, given the
    /// per-slot parse outcome that the outside interpreter produced for
    /// each program.  Construction succeeds exactly when every program
    /// parsed; any other program count is rejected outright — never
    /// truncated or padded — and the first slot whose program did not
    /// parse is reported with its location.
    pub fn new(progs: Vec<String>, parses: &Vec<Result<(), SrcLocation>>) -> (r: Result<
        TanquesEngine,
        EngineError,
    >)
        requires
            parses@.len() == progs@.len(),
        ensures
            (match r {
                Ok(e) => init_model(parses@) == Ok::<(), EngineError>(()) && e.wf() && e.progs()
                    == progs@ && !e.wall(),
                Err(err) => init_model(parses@) == Err::<(), EngineError>(err),
            }),
    {
        match validate_programs(parses) {
            Ok(()) => Ok(TanquesEngine { programs: progs, wall_rule: false }),
            Err(e) => Err(e),
        }
    }

    /// Switches the wall-collision rule on or off.
    pub fn set_wall_rule(&mut self, on: bool)
        ensures
            final(self).progs() == old(self).progs(),
            final(self).wall() == on,
    {
        self.wall_rule = on;
    }

    /// Reads back the stored program sources.
    pub fn programs(&self) -> (r: &Vec<String>)
        ensures
            r@ == self.progs(),
    {
        &self.programs
    }

    /// Reads back the wall-rule toggle.
    pub fn wall_rule(&self) -> (r: bool)
        ensures
            r == self.wall(),
    {
        self.wall_rule
    }

    /// One tick: resolves the four interpreter outcomes against the
    /// snapshot `game_status`.  Either every slot advanced and the next
    /// snapshot is committed, or the first failing slot is reported and
    /// nothing is.
    pub fn step(
        &self,
        game_status: &GameStatus,
        outcomes: &Vec<Result<TankStatus, RuntimeCause>>,
    ) -> (r: Result<GameStatus, EngineError>)
        requires
            game_status.wf(),
            outcomes@.len() == NUM_TANKS,
        ensures
            (match r {
                Ok(g) => g.wf() && tick_model(game_status@, outcomes@, self.wall()) == Ok::<
                    Seq<TankStatus>,
                    EngineError,
                >(g@),
                Err(e) => tick_model(game_status@, outcomes@, self.wall()) == Err::<
                    Seq<TankStatus>,
                    EngineError,
                >(e),
            }),
    {
        resolve_tick(game_status, outcomes, self.wall_rule)
    }
}

/// `first_failure` finds exactly the least failing index.
pub proof fn lemma_first_failure_is<T, E>(outs: Seq<Result<T, E>>, i: int)
    requires
        0 <= i < outs.len(),
        outs[i] is Err,
        forall|j: int| 0 <= j < i ==> outs[j] is Ok,
    ensures
        has_failure(outs),
        first_failure(outs) == i,
    decreases i,
{
    if i == 0 {
    } else {
        assert(outs[0] is Ok);
        let rest = outs.drop_first();
        assert(rest[i - 1] == outs[i]);
        assert(forall|j: int| 0 <= j < i - 1 ==> rest[j] == outs[j + 1] && outs[j + 1] is Ok);
        lemma_first_failure_is(rest, i - 1);
    }
}

/// When some slot failed, `first_failure` points at a failing slot and
/// every slot before it succeeded.
pub proof fn lemma_first_failure_props<T, E>(outs: Seq<Result<T, E>>)
    requires
        has_failure(outs),
    ensures
        0 <= first_failure(outs) < outs.len(),
        outs[first_failure(outs)] is Err,
        forall|j: int| 0 <= j < first_failure(outs) ==> outs[j] is Ok,
    decreases outs.len(),
{
    if outs[0] is Err {
    } else {
        let rest = outs.drop_first();
        assert(has_failure(rest)) by {
            let w = choose|i: int| 0 <= i < outs.len() && outs[i] is Err;
            assert(rest[w - 1] == outs[w]);
        }
        lemma_first_failure_props(rest);
        let f = first_failure(outs);
        assert(outs[f] == rest[f - 1]);
        assert(forall|j: int| 0 < j < f ==> outs[j] == rest[j - 1] && rest[j - 1] is Ok);
    }
}

/// A tank is never struck by its own shot.
pub proof fn lemma_no_self_hit(s: Seq<TankStatus>, k: int)
    ensures
        !hits(s, k, k),
{
}

/// Collision symmetry: when two tanks occupy the same cell after a tick's
/// movement, both lose the collision damage, and each exactly once that
/// tick — also when three or more tanks crowd the cell.
pub proof fn lemma_collision_symmetry(s: Seq<TankStatus>, a: int, b: int)
    requires
        0 <= a < s.len(),
        0 <= b < s.len(),
        a != b,
        same_pos(s[a], s[b]),
    ensures
        collided(s, a),
        collided(s, b),
        after_collisions(s)[a].health == health_after(
            s[a].health,
            DEFAULT_COLLISION_DAMAGE as nat,
        ),
        after_collisions(s)[b].health == health_after(
            s[b].health,
            DEFAULT_COLLISION_DAMAGE as nat,
        ),
{
    assert(same_pos(s[b], s[a]));
}

/// Atomic tick failure: if any slot's interpreter fails, the tick commits
/// no snapshot at all — the resolver reports the first failing slot and
/// its cause instead.
pub proof fn lemma_atomic_tick_failure(
    pre: Seq<TankStatus>,
    outs: Seq<Result<TankStatus, RuntimeCause>>,
    wall_rule: bool,
    i: int,
)
    requires
        outs.len() <= usize::MAX,
        0 <= i < outs.len(),
        outs[i] is Err,
    ensures
        tick_model(pre, outs, wall_rule) is Err,
        tick_model(pre, outs, wall_rule) matches Err(EngineError::RuntimeError(slot, cause))
            && slot == first_failure(outs) && outs[slot as int] is Err
            && cause == outs[slot as int]->Err_0,
{
    assert(has_failure(outs));
    lemma_first_failure_props(outs);
}

/// No shooter hits slot `k`: the shot count is zero, below any bound.
proof fn lemma_shot_count_upto_zero(s: Seq<TankStatus>, k: int, n: int)
    requires
        forall|i: int| 0 <= i < s.len() ==> !hits(s, i, k),
    ensures
        shot_count_upto(s, k, n) == 0,
    decreases n,
{
    if n > 0 {
        lemma_shot_count_upto_zero(s, k, n - 1);
        assert(!hits(s, n - 1, k));
    }
}

/// Idle conservation over one tick, with the wall rule off: a tank whose
/// program neither moved it nor fired, with no shooter's line of fire on
/// it and no other tank in its cell, keeps its health and its position.
/// (With the wall rule on, standing still is read as a blocked movement
/// and costs health, so idleness is only conserved without it.)
pub proof fn lemma_idle_tick(
    pre: Seq<TankStatus>,
    outs: Seq<Result<TankStatus, RuntimeCause>>,
    k: int,
)
    requires
        0 <= k < outs.len(),
        !has_failure(outs),
        outs[k]->Ok_0 == cleared(pre[k]),
        forall|i: int| 0 <= i < outs.len() ==> !hits(ok_statuses(outs), i, k),
        forall|j: int|
            0 <= j < outs.len() && j != k ==> !same_pos(ok_statuses(outs)[j], ok_statuses(outs)[k]),
    ensures
        tick_model(pre, outs, false) matches Ok(next) && next[k].health == pre[k].health
            && next[k].pos_i == pre[k].pos_i && next[k].pos_j == pre[k].pos_j,
{
    let ok = ok_statuses(outs);
    let shot = after_shots(ok);
    lemma_shot_count_upto_zero(ok, k, ok.len() as int);
    assert(shot[k] == ok[k]);
    assert(forall|j: int| 0 <= j < shot.len() ==> same_pos(#[trigger] shot[j], shot[k]) == same_pos(
        ok[j],
        ok[k],
    ));
    assert(!collided(shot, k));
    assert(after_collisions(shot)[k] == shot[k]);
    assert(ok[k] == cleared(pre[k]));
}

} // verus!
