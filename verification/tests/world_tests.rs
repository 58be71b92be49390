use machine::judge::{judge_contacts, Contact, MatchResult, ObjectType, Slot};
use machine::world::{
    action_impulse, is_finite_bits, kickoff, offset_bits, spawn_point, Collision, Offset, Position,
    World,
};
use machine::codec::ActionVector;
use rapier3d::geometry::ColliderHandle;

fn coordinates(place: Position) -> [f32; 3] {
    [f32::from_bits(place.x), f32::from_bits(place.y), f32::from_bits(place.z)]
}

fn push(x: f32, y: f32, z: f32) -> Position {
    Position { x: x.to_bits(), y: y.to_bits(), z: z.to_bits() }
}

fn run_until_decided(world: &mut World, limit: u32) -> MatchResult {
    let mut result = MatchResult::Ongoing;
    let mut ticks = 0;
    while result == MatchResult::Ongoing && ticks < limit {
        let contacts = world.step();
        result = judge_contacts(result, &contacts);
        ticks += 1;
    }
    result
}

#[test]
fn offsets_become_single_precision_hundredths() {
    let bits = offset_bits(Offset { x: 2000, y: -5, z: 975 });
    assert_eq!(coordinates(bits), [20.0, -0.05, 9.75]);
    assert_eq!(coordinates(offset_bits(Offset { x: 0, y: 70, z: -981 })), [0.0, 0.7, -9.81]);
}

#[test]
fn action_impulse_divides_by_127() {
    let impulse = action_impulse(ActionVector { x: 127, y: -128, z: 0 });
    assert_eq!(coordinates(impulse), [1.0, -128.0 / 127.0, 0.0]);
    let north = action_impulse(ActionVector { x: 0, y: 127, z: 0 });
    assert_eq!(coordinates(north), [0.0, 1.0, 0.0]);
}

#[test]
fn spawn_points_mirror_each_other() {
    assert_eq!(spawn_point(Slot::One), Offset { x: -900, y: 25, z: 25 });
    assert_eq!(spawn_point(Slot::Two), Offset { x: 900, y: 25, z: 25 });
    assert_eq!(kickoff(Slot::One), Offset { x: 200, y: 0, z: 0 });
    assert_eq!(kickoff(Slot::Two), Offset { x: -200, y: 0, z: 0 });
}

#[test]
fn ball_starts_above_the_center() {
    let world = World::new();
    let place = world.position_of(world.ball()).expect("the ball exists");
    assert_eq!(coordinates(place), [0.0, 9.75, 0.0]);
}

#[test]
fn bots_spawn_at_their_slots() {
    let mut world = World::new();
    let first = world.spawn_bot(Slot::One);
    let second = world.spawn_bot(Slot::Two);
    assert_eq!(coordinates(world.position_of(first).unwrap()), [-9.0, 0.25, 0.25]);
    assert_eq!(coordinates(world.position_of(second).unwrap()), [9.0, 0.25, 0.25]);
}

#[test]
fn gravity_pulls_the_ball_down() {
    let mut world = World::new();
    let before = coordinates(world.position_of(world.ball()).unwrap());
    for _ in 0..10 {
        world.step();
    }
    let after = coordinates(world.position_of(world.ball()).unwrap());
    assert!(after[1] < before[1]);
    assert_eq!(after[0], 0.0);
    assert_eq!(after[2], 0.0);
}

#[test]
fn impulse_moves_a_body() {
    let mut world = World::new();
    let ball = world.ball();
    assert!(world.apply_impulse(ball, push(1.0, 0.0, 0.0)));
    world.step();
    let after = coordinates(world.position_of(ball).unwrap());
    assert!(after[0] > 0.0);
}

#[test]
fn ball_pushed_into_first_goal_makes_second_bot_win() {
    let mut world = World::new();
    let ball = world.ball();
    assert!(world.apply_impulse(ball, push(-3.0, 0.0, 0.0)));
    assert_eq!(run_until_decided(&mut world, 2000), MatchResult::Winner(Slot::Two));
}

#[test]
fn ball_pushed_into_second_goal_makes_first_bot_win() {
    let mut world = World::new();
    let ball = world.ball();
    assert!(world.apply_impulse(ball, push(3.0, 0.0, 0.0)));
    assert_eq!(run_until_decided(&mut world, 2000), MatchResult::Winner(Slot::One));
}

#[test]
fn ball_dropped_on_a_bot_decides_nothing() {
    let mut world = World::new();
    let bot = world.create_bot_handle(Offset { x: 0, y: 25, z: 0 }, ObjectType::Bot1);
    let mut touched = false;
    let mut result = MatchResult::Ongoing;
    for _ in 0..200 {
        let contacts = world.step();
        for contact in &contacts {
            let pair = (ObjectType::from_code(contact.first), ObjectType::from_code(contact.second));
            if pair == (ObjectType::Ball, ObjectType::Bot1) || pair == (ObjectType::Bot1, ObjectType::Ball) {
                touched = true;
            }
        }
        result = judge_contacts(result, &contacts);
    }
    assert!(world.position_of(bot).is_some());
    assert!(touched);
    assert_eq!(result, MatchResult::Ongoing);
}

#[test]
fn stepping_is_repeatable() {
    let mut first = World::new();
    let mut second = World::new();
    for world in [&mut first, &mut second] {
        let ball = world.ball();
        world.apply_impulse(ball, push(0.5, 0.0, 0.25));
    }
    for _ in 0..300 {
        assert_eq!(first.step(), second.step());
        assert_eq!(first.position_of(first.ball()), second.position_of(second.ball()));
    }
}

#[test]
fn finite_numbers_are_told_from_the_others() {
    assert!(is_finite_bits(0.0f32.to_bits()));
    assert!(is_finite_bits((-0.0f32).to_bits()));
    assert!(is_finite_bits(f32::MAX.to_bits()));
    assert!(is_finite_bits(f32::MIN.to_bits()));
    assert!(is_finite_bits(f32::MIN_POSITIVE.to_bits()));
    assert!(is_finite_bits(1));
    assert!(!is_finite_bits(f32::INFINITY.to_bits()));
    assert!(!is_finite_bits(f32::NEG_INFINITY.to_bits()));
    assert!(!is_finite_bits(f32::NAN.to_bits()));
    assert!(!is_finite_bits(0x7F80_0001));
    assert!(!is_finite_bits(u32::MAX));
    assert!(push(1.0, -2.0, 3.5).is_finite());
    assert!(!push(1.0, f32::NAN, 3.5).is_finite());
    assert!(!push(1.0, 2.0, f32::INFINITY).is_finite());
}

#[test]
fn push_that_is_not_finite_is_not_given() {
    let mut pushed = World::new();
    let mut left_alone = World::new();
    let ball = pushed.ball();
    assert!(!pushed.apply_impulse(ball, push(f32::NAN, 0.0, 0.0)));
    assert!(!pushed.apply_impulse(ball, push(0.0, f32::INFINITY, 0.0)));
    assert!(!pushed.apply_impulse(ball, push(0.0, 0.0, f32::NEG_INFINITY)));
    for _ in 0..20 {
        pushed.step();
        left_alone.step();
    }
    assert_eq!(pushed.position_of(ball), left_alone.position_of(left_alone.ball()));
}

#[test]
fn push_to_a_body_of_another_world_is_not_given() {
    let mut crowded = World::new();
    let stranger = crowded.spawn_bot(Slot::One);
    let mut world = World::new();
    assert!(!world.apply_impulse(stranger, push(1.0, 0.0, 0.0)));
    assert_eq!(world.position_of(stranger), None);
    assert!(crowded.apply_impulse(stranger, push(1.0, 0.0, 0.0)));
}

#[test]
fn gravity_pulls_straight_down() {
    assert_eq!(coordinates(World::gravity()), [0.0, -9.81, 0.0]);
}

#[test]
fn contacts_are_read_from_started_collisions() {
    let mut world = World::new();
    world.spawn_bot(Slot::One);
    let wall = ColliderHandle::from_raw_parts(0, 0);
    let first_goal = ColliderHandle::from_raw_parts(5, 0);
    let second_goal = ColliderHandle::from_raw_parts(6, 0);
    let ball = ColliderHandle::from_raw_parts(7, 0);
    let bot = ColliderHandle::from_raw_parts(8, 0);
    let missing = ColliderHandle::from_raw_parts(99, 0);
    let stale = ColliderHandle::from_raw_parts(7, 1);
    let collisions = vec![
        Collision::Started(ball, first_goal),
        Collision::Stopped(ball, first_goal),
        Collision::Started(second_goal, ball),
        Collision::Started(ball, missing),
        Collision::Started(stale, wall),
        Collision::Started(bot, wall),
        Collision::Stopped(bot, ball),
        Collision::Started(ball, ball),
    ];
    assert_eq!(
        world.contacts_of(&collisions),
        vec![
            Contact { first: 1, second: 2 },
            Contact { first: 3, second: 1 },
            Contact { first: 4, second: 0 },
            Contact { first: 1, second: 1 },
        ]
    );
    assert_eq!(world.contacts_of(&Vec::new()), Vec::new());
    assert_eq!(
        judge_contacts(MatchResult::Ongoing, &world.contacts_of(&collisions)),
        MatchResult::Winner(Slot::Two)
    );
}

#[test]
fn bot_that_has_not_spawned_has_no_mark() {
    let world = World::new();
    let ball = ColliderHandle::from_raw_parts(7, 0);
    let bot = ColliderHandle::from_raw_parts(8, 0);
    assert_eq!(world.contacts_of(&vec![Collision::Started(bot, ball)]), Vec::new());
}

#[test]
fn push_waits_for_the_next_step() {
    let mut pushed = World::new();
    let mut queued_twice = World::new();
    let ball = pushed.ball();
    assert!(pushed.apply_impulse(ball, push(2.0, 0.0, 0.0)));
    assert_eq!(coordinates(pushed.position_of(ball).unwrap()), [0.0, 9.75, 0.0]);
    let other = queued_twice.ball();
    assert!(queued_twice.apply_impulse(other, push(1.0, 0.0, 0.0)));
    assert!(queued_twice.apply_impulse(other, push(1.0, 0.0, 0.0)));
    pushed.step();
    queued_twice.step();
    let moved = coordinates(pushed.position_of(ball).unwrap());
    assert!(moved[0] > 0.0);
    assert_eq!(pushed.position_of(ball), queued_twice.position_of(other));
    let before = moved[0];
    pushed.step();
    let after = coordinates(pushed.position_of(ball).unwrap())[0];
    assert!((after - before - before).abs() < 1e-3);
}

#[test]
fn world_counts_its_steps_and_keeps_the_last_contacts() {
    let mut world = World::new();
    assert_eq!(world.steps_taken(), 0);
    assert_eq!(world.last_contacts(), Vec::new());
    let mut seen = false;
    for step in 1..=120u64 {
        let contacts = world.step();
        assert_eq!(world.steps_taken(), step);
        assert_eq!(world.last_contacts(), contacts);
        seen = seen || !contacts.is_empty();
    }
    assert!(seen);
}
