use tanques_engine::engine::TanquesEngine;
use tanques_engine::engine::DEFAULT_COLLISION_DAMAGE;
use tanques_engine::engine::SHOT_DAMAGE;
use tanques_engine::engine::WALL_COLLISION_DAMAGE;
use tanques_engine::error::EngineError;
use tanques_engine::error::RuntimeCause;
use tanques_engine::error::SrcLocation;
use tanques_engine::status::GameStatus;
use tanques_engine::status::TankDirection;
use tanques_engine::status::TankStatus;
use tanques_engine::status::INITIAL_HEALTH;

fn tank(pos_i: usize, pos_j: usize, dir: TankDirection, health: usize) -> TankStatus {
    TankStatus { pos_i, pos_j, dir, health, shot: false, got_shot: false }
}

fn four_programs() -> Vec<String> {
    vec![String::new(), String::new(), String::new(), String::new()]
}

fn ok_parses() -> Vec<Result<(), SrcLocation>> {
    vec![Ok(()); 4]
}

fn engine() -> TanquesEngine {
    TanquesEngine::new(four_programs(), &ok_parses()).unwrap()
}

fn snapshot(tanks: [TankStatus; 4]) -> GameStatus {
    let mut g = GameStatus::new();
    for (idx, t) in tanks.iter().enumerate() {
        g.set_tank_status(*t, idx);
    }
    g
}

/// Positions (row, column) far apart: no shared cell, no shared row or
/// column, so no accidental shot or collision.
fn scattered() -> [TankStatus; 4] {
    [
        tank(2, 2, TankDirection::East, INITIAL_HEALTH),
        tank(5, 7, TankDirection::North, INITIAL_HEALTH),
        tank(9, 4, TankDirection::South, INITIAL_HEALTH),
        tank(12, 11, TankDirection::West, INITIAL_HEALTH),
    ]
}

#[test]
fn fixed_arity_rejects_three_programs() {
    let progs = vec![String::new(), String::new(), String::new()];
    let r = TanquesEngine::new(progs, &vec![Ok(()); 3]);
    assert!(matches!(r, Err(EngineError::ArityError(3))));
}

#[test]
fn fixed_arity_rejects_five_programs() {
    let progs = vec![String::new(); 5];
    let r = TanquesEngine::new(progs, &vec![Ok(()); 5]);
    assert!(matches!(r, Err(EngineError::ArityError(5))));
}

#[test]
fn shot_damage_hits_target_east_and_spares_the_shooter() {
    // Agent A in slot 0 at (2, 2) faces East and fires; agent B in slot 1
    // stands still on the same row at a larger column, that is due East.
    let mut tanks = scattered();
    tanks[0].shot = true;
    tanks[1] = tank(2, 5, TankDirection::North, INITIAL_HEALTH);
    let pre = snapshot(scattered());
    let outcomes = vec![Ok(tanks[0]), Ok(tanks[1]), Ok(tanks[2]), Ok(tanks[3])];
    let next = engine().step(&pre, &outcomes).unwrap();
    assert_eq!(next.get_tank_status(1).health, INITIAL_HEALTH - SHOT_DAMAGE);
    assert!(next.get_tank_status(1).got_shot);
    assert_eq!(next.get_tank_status(0).health, INITIAL_HEALTH);
    assert!(!next.get_tank_status(0).got_shot);
    assert_eq!(next.get_tank_status(2).health, INITIAL_HEALTH);
    assert_eq!(next.get_tank_status(3).health, INITIAL_HEALTH);
}

#[test]
fn shots_reach_along_all_four_directions() {
    // Shooter in the middle; one target on each side of it, each along
    // one axis.  Facing decides which single target is struck.
    let cases = [
        (TankDirection::North, 2usize),
        (TankDirection::East, 3usize),
        (TankDirection::South, 1usize),
        (TankDirection::West, 3usize),
    ];
    // North: smaller row, same column.  South: larger row, same column.
    // East: larger column, same row.  West: smaller column, same row.
    let layouts = [
        [tank(5, 5, TankDirection::North, 100), tank(9, 5, TankDirection::North, 100),
            tank(1, 5, TankDirection::North, 100), tank(5, 9, TankDirection::North, 100)],
        [tank(5, 5, TankDirection::East, 100), tank(9, 5, TankDirection::North, 100),
            tank(1, 5, TankDirection::North, 100), tank(5, 9, TankDirection::North, 100)],
        [tank(5, 5, TankDirection::South, 100), tank(9, 5, TankDirection::North, 100),
            tank(1, 5, TankDirection::North, 100), tank(5, 9, TankDirection::North, 100)],
        [tank(5, 5, TankDirection::West, 100), tank(9, 5, TankDirection::North, 100),
            tank(1, 5, TankDirection::North, 100), tank(5, 1, TankDirection::North, 100)],
    ];
    for (case, layout) in cases.iter().zip(layouts.iter()) {
        let mut tanks = *layout;
        tanks[0].shot = true;
        let pre = snapshot(*layout);
        let outcomes = vec![Ok(tanks[0]), Ok(tanks[1]), Ok(tanks[2]), Ok(tanks[3])];
        let next = engine().step(&pre, &outcomes).unwrap();
        for idx in 1..4 {
            let expected = if idx == case.1 { 100 - SHOT_DAMAGE } else { 100 };
            assert_eq!(next.get_tank_status(idx).health, expected, "facing {:?}", case.0);
            assert_eq!(next.get_tank_status(idx).got_shot, idx == case.1);
        }
    }
}

#[test]
fn two_shooters_striking_one_target_stack_additively() {
    // Slots 0 and 2 both fire along column 5 towards slot 1 between them.
    let tanks = [
        tank(1, 5, TankDirection::South, 100),
        tank(5, 5, TankDirection::East, 100),
        tank(9, 5, TankDirection::North, 100),
        tank(20, 30, TankDirection::West, 100),
    ];
    let mut stepped = tanks;
    stepped[0].shot = true;
    stepped[2].shot = true;
    let pre = snapshot(tanks);
    let outcomes = vec![Ok(stepped[0]), Ok(stepped[1]), Ok(stepped[2]), Ok(stepped[3])];
    let next = engine().step(&pre, &outcomes).unwrap();
    assert_eq!(next.get_tank_status(1).health, 100 - 2 * SHOT_DAMAGE);
    // The two shooters stand in each other's line of fire, one shot each.
    assert_eq!(next.get_tank_status(0).health, 100 - SHOT_DAMAGE);
    assert_eq!(next.get_tank_status(2).health, 100 - SHOT_DAMAGE);
    assert_eq!(next.get_tank_status(3).health, 100);
}

#[test]
fn collision_damages_both_tanks_in_a_shared_cell() {
    let mut tanks = scattered();
    tanks[2] = tank(5, 7, TankDirection::South, INITIAL_HEALTH);  // same cell as slot 1
    let pre = snapshot(scattered());
    let outcomes = vec![Ok(tanks[0]), Ok(tanks[1]), Ok(tanks[2]), Ok(tanks[3])];
    let next = engine().step(&pre, &outcomes).unwrap();
    assert_eq!(next.get_tank_status(1).health, INITIAL_HEALTH - DEFAULT_COLLISION_DAMAGE);
    assert_eq!(next.get_tank_status(2).health, INITIAL_HEALTH - DEFAULT_COLLISION_DAMAGE);
    assert_eq!(next.get_tank_status(0).health, INITIAL_HEALTH);
    assert_eq!(next.get_tank_status(3).health, INITIAL_HEALTH);
}

#[test]
fn three_tanks_in_one_cell_each_lose_collision_damage_once() {
    let mut tanks = scattered();
    tanks[1] = tank(5, 7, TankDirection::North, INITIAL_HEALTH);
    tanks[2] = tank(5, 7, TankDirection::South, INITIAL_HEALTH);
    tanks[3] = tank(5, 7, TankDirection::West, INITIAL_HEALTH);
    let pre = snapshot(scattered());
    let outcomes = vec![Ok(tanks[0]), Ok(tanks[1]), Ok(tanks[2]), Ok(tanks[3])];
    let next = engine().step(&pre, &outcomes).unwrap();
    for idx in 1..4 {
        assert_eq!(next.get_tank_status(idx).health, INITIAL_HEALTH - DEFAULT_COLLISION_DAMAGE);
    }
    assert_eq!(next.get_tank_status(0).health, INITIAL_HEALTH);
}

#[test]
fn wall_rule_charges_a_tank_that_did_not_move() {
    let tanks = scattered();
    let pre = snapshot(tanks);
    let mut stepped = tanks;
    // Slot 0 stays put; the others move one cell.
    stepped[1].pos_j += 1;
    stepped[2].pos_i += 1;
    stepped[3].pos_j -= 1;
    let outcomes = vec![Ok(stepped[0]), Ok(stepped[1]), Ok(stepped[2]), Ok(stepped[3])];

    let mut walled = engine();
    walled.set_wall_rule(true);
    assert!(walled.wall_rule());
    let next = walled.step(&pre, &outcomes).unwrap();
    assert_eq!(next.get_tank_status(0).health, INITIAL_HEALTH - WALL_COLLISION_DAMAGE);
    for idx in 1..4 {
        assert_eq!(next.get_tank_status(idx).health, INITIAL_HEALTH);
    }

    // With the rule off (the default), standing still costs nothing.
    let plain = engine();
    assert!(!plain.wall_rule());
    let next = plain.step(&pre, &outcomes).unwrap();
    for idx in 0..4 {
        assert_eq!(next.get_tank_status(idx).health, INITIAL_HEALTH);
    }
}

#[test]
fn a_failing_interpreter_aborts_the_whole_tick() {
    let tanks = scattered();
    let pre = snapshot(tanks);
    let cause = RuntimeCause { line: 3, col: 7 };
    let outcomes = vec![Ok(tanks[0]), Ok(tanks[1]), Err(cause), Ok(tanks[3])];
    let r = engine().step(&pre, &outcomes);
    assert_eq!(r.unwrap_err(), EngineError::RuntimeError(2, cause));
    // Nothing was committed: the caller's snapshot still holds the
    // pre-tick statuses.
    for idx in 0..4 {
        assert_eq!(pre.get_tank_status(idx), tanks[idx]);
    }
}

#[test]
fn the_first_failing_slot_is_the_one_reported() {
    let tanks = scattered();
    let pre = snapshot(tanks);
    let first = RuntimeCause { line: 1, col: 1 };
    let later = RuntimeCause { line: 9, col: 9 };
    let outcomes = vec![Ok(tanks[0]), Err(first), Ok(tanks[2]), Err(later)];
    let r = engine().step(&pre, &outcomes);
    assert_eq!(r.unwrap_err(), EngineError::RuntimeError(1, first));
}

#[test]
fn engine_keeps_its_programs_and_defaults_to_no_wall_rule() {
    let mut progs = four_programs();
    progs[2] = String::from("avanza");
    let e = TanquesEngine::new(progs.clone(), &ok_parses()).unwrap();
    assert_eq!(e.programs(), &progs);
    assert!(!e.wall_rule());
}

#[test]
fn construction_rejects_the_first_unparsed_program() {
    let mut parses = ok_parses();
    parses[1] = Err(SrcLocation::Pos(4, 2));
    parses[3] = Err(SrcLocation::Span(1, 1, 2, 2));
    let r = TanquesEngine::new(four_programs(), &parses);
    assert!(matches!(r, Err(EngineError::InitError(1, SrcLocation::Pos(4, 2)))));
}

#[test]
fn construction_succeeds_when_every_program_parses() {
    let r = TanquesEngine::new(four_programs(), &ok_parses());
    assert!(r.is_ok());
}
