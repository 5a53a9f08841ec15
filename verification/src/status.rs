//! The per-tank record and the four-slot game snapshot.

use vstd::prelude::*;

verus! {

/// Number of agent slots in a game; the snapshot and the session both have
/// exactly this arity.
pub const NUM_TANKS: usize = 4;

/// Health every tank starts with.
pub const INITIAL_HEALTH: usize = 100;

/// The facing of a tank on the grid.  A position is a `(row, column)` pair;
/// `North` looks towards smaller rows, `East` towards larger columns,
/// `South` towards larger rows and `West` towards smaller columns.
#[derive(Clone, Copy, PartialEq, Eq, Structural, Debug)]
pub enum TankDirection {
    North,
    East,
    South,
    West,
}

/// One agent's record: grid position (row `pos_i`, column `pos_j`), facing,
/// remaining health, and the two transient flags.  `shot` is true only for
/// the tick in which the agent fired; `got_shot` only for the tick in which
/// it was struck.  Both are cleared before the agent's program runs.
#[derive(Clone, Copy, PartialEq, Eq, Structural, Debug)]
pub struct TankStatus {
    pub pos_i: usize,
    pub pos_j: usize,
    pub dir: TankDirection,
    pub health: usize,
    pub shot: bool,
    pub got_shot: bool,
}

/// Health left after subtracting `damage`, clamped at zero: health is a
/// non-negative counter and never goes below zero.
pub open spec fn health_after(health: usize, damage: nat) -> usize {
    if damage <= health {
        (health - damage) as usize
    } else {
        0usize
    }
}

/// `status` with both transient flags cleared, as it is handed to the
/// agent's program at the start of a tick.
pub open spec fn cleared(status: TankStatus) -> TankStatus {
    TankStatus { shot: false, got_shot: false, ..status }
}

/// Whether two tanks occupy the same grid cell.
pub open spec fn same_pos(a: TankStatus, b: TankStatus) -> bool {
    a.pos_i == b.pos_i && a.pos_j == b.pos_j
}

impl TankStatus {
    /// The record a fresh tank starts from: the origin cell, facing North,
    /// full health, no transient flags.
    pub open spec fn initial() -> TankStatus {
        TankStatus {
            pos_i: 0,
            pos_j: 0,
            dir: TankDirection::North,
            health: INITIAL_HEALTH,
            shot: false,
            got_shot: false,
        }
    }

    /// The `(row, column)` position of this tank.
    pub fn get_pos(&self) -> (p: (usize, usize))
        ensures
            p.0 == self.pos_i,
            p.1 == self.pos_j,
    {
        (self.pos_i, self.pos_j)
    }

    /// The direction this tank is facing.
    pub fn get_dir(&self) -> (d: TankDirection)
        ensures
            d == self.dir,
    {
        self.dir
    }

    /// Whether this tank fired during the current tick.
    pub fn shot(&self) -> (b: bool)
        ensures
            b == self.shot,
    {
        self.shot
    }

    /// Whether this tank was struck by a shot during the current tick.
    pub fn got_shot(&self) -> (b: bool)
        ensures
            b == self.got_shot,
    {
        self.got_shot
    }

    /// Sets the fired-this-tick flag.
    pub fn set_shot(&mut self, value: bool)
        ensures
            *final(self) == (TankStatus { shot: value, ..*old(self) }),
    {
        self.shot = value;
    }

    /// Sets the struck-this-tick flag.
    pub fn set_got_shot(&mut self, value: bool)
        ensures
            *final(self) == (TankStatus { got_shot: value, ..*old(self) }),
    {
        self.got_shot = value;
    }

    /// Subtracts `damage` from this tank's health, clamping at zero.
    pub fn apply_damage(&mut self, damage: usize)
        ensures
            *final(self) == (TankStatus {
                health: health_after(old(self).health, damage as nat),
                ..*old(self)
            }),
    {
        if self.health >= damage {
            self.health = self.health - damage;
        } else {
            self.health = 0;
        }
    }

    /// This tank's record with both transient flags cleared, the form in
    /// which it is handed to its program at the start of a tick.
    pub fn cleared_for_tick(&self) -> (r: TankStatus)
        ensures
            r == cleared(*self),
    {
        TankStatus { shot: false, got_shot: false, ..*self }
    }
}

impl Default for TankStatus {
    /// A fresh tank record.
    fn default() -> (r: Self)
        ensures
            r == TankStatus::initial(),
    {
        TankStatus {
            pos_i: 0,
            pos_j: 0,
            dir: TankDirection::North,
            health: INITIAL_HEALTH,
            shot: false,
            got_shot: false,
        }
    }
}

/// The complete set of all four tanks' statuses at one tick.  Slot order is
/// agent identity: the snapshot is never reordered and never resized.
#[derive(Clone, Debug)]
pub struct GameStatus {
    tanks_status: Vec<TankStatus>,
}

impl View for GameStatus {
    type V = Seq<TankStatus>;

    closed spec fn view(&self) -> Seq<TankStatus> {
        self.tanks_status@
    }
}

impl GameStatus {
    /// A snapshot always holds exactly one status per agent slot.
    pub open spec fn wf(&self) -> bool {
        self@.len() == NUM_TANKS
    }

    /// A snapshot with every slot at its starting record.
    pub fn new() -> (r: Self)
        ensures
            r.wf(),
            forall|k: int| 0 <= k < NUM_TANKS ==> r@[k] == TankStatus::initial(),
    {
        let mut tanks_status: Vec<TankStatus> = Vec::new();
        let mut k: usize = 0;
        while k < NUM_TANKS
            invariant
                k <= NUM_TANKS,
                tanks_status@.len() == k,
                forall|m: int| 0 <= m < k ==> tanks_status@[m] == TankStatus::initial(),
            decreases NUM_TANKS - k,
        {
            tanks_status.push(TankStatus::default());
            k = k + 1;
        }
        GameStatus { tanks_status }
    }

    /// Reads the status of the agent in slot `idx`.  An out-of-range slot is
    /// a fatal indexing fault, so it is excluded up front.
    pub fn get_tank_status(&self, idx: usize) -> (r: TankStatus)
        requires
            self.wf(),
            idx < NUM_TANKS,
        ensures
            r == self@[idx as int],
    {
        self.tanks_status[idx]
    }

    /// Replaces the status of the agent in slot `idx`.  An out-of-range slot
    /// is a fatal indexing fault, so it is excluded up front.
    pub fn set_tank_status(&mut self, status: TankStatus, idx: usize)
        requires
            old(self).wf(),
            idx < NUM_TANKS,
        ensures
            final(self)@ == old(self)@.update(idx as int, status),
    {
        self.tanks_status[idx] = status;
    }

    /// A copy of this snapshot, slot for slot.
    pub fn duplicate(&self) -> (r: Self)
        ensures
            r@ == self@,
    {
        let mut tanks_status: Vec<TankStatus> = Vec::new();
        let mut k: usize = 0;
        let n = self.tanks_status.len();
        while k < n
            invariant
                k <= n,
                n == self@.len(),
                tanks_status@.len() == k,
                forall|m: int| 0 <= m < k ==> tanks_status@[m] == self@[m],
            decreases n - k,
        {
            tanks_status.push(self.tanks_status[k]);
            k = k + 1;
        }
        assert(tanks_status@ =~= self@);
        GameStatus { tanks_status }
    }
}

impl Default for GameStatus {
    /// Same as `GameStatus::new`.
    fn default() -> (r: Self)
        ensures
            r.wf(),
            forall|k: int| 0 <= k < NUM_TANKS ==> r@[k] == TankStatus::initial(),
    {
        GameStatus::new()
    }
}

} // verus!
