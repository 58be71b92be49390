use machine::error::EngineError;
use machine::guest::{
    arguments, check_export, create_bot_module, is_bridge_import, load_outcome, print_u32,
    within_bridge, Import, Signature, ValueKind, BRIDGE_FUNCTION, BRIDGE_NAMESPACE,
};
use machine::metering::{
    operator_cost, settle_action, settle_call, MeteringPoints, OperatorKind, COMPUTE_ACTIONS_GAS,
    INIT_GAS,
};
use machine::world::{Position, World};

const NORTH: &str = r#"(module
  (import "env" "print_u32" (func $print (param i32)))
  (func (export "init") (param i32)
    local.get 0
    call $print)
  (func (export "compute_actions")
    (param f32 f32 f32 f32 f32 f32 f32 f32 f32) (result i32)
    i32.const 8454016))"#;

const ECHO: &str = r#"(module
  (import "env" "print_u32" (func $print (param i32)))
  (func (export "init") (param i32))
  (func (export "compute_actions")
    (param f32 f32 f32 f32 f32 f32 f32 f32 f32) (result i32)
    local.get 0
    i32.reinterpret_f32
    call $print
    local.get 4
    i32.reinterpret_f32
    call $print
    local.get 8
    i32.reinterpret_f32))"#;

const SPINNER: &str = r#"(module
  (func (export "init") (param i32))
  (func (export "compute_actions")
    (param f32 f32 f32 f32 f32 f32 f32 f32 f32) (result i32)
    (loop $again (br $again))
    i32.const 0))"#;

const BUSY_INIT: &str = r#"(module
  (func (export "init") (param i32)
    (loop $again (br $again)))
  (func (export "compute_actions")
    (param f32 f32 f32 f32 f32 f32 f32 f32 f32) (result i32)
    i32.const 8421504))"#;

const FAULTY: &str = r#"(module
  (func (export "init") (param i32))
  (func (export "compute_actions")
    (param f32 f32 f32 f32 f32 f32 f32 f32 f32) (result i32)
    unreachable))"#;

fn place(x: f32, y: f32, z: f32) -> Position {
    Position { x: x.to_bits(), y: y.to_bits(), z: z.to_bits() }
}

fn load(text: &str) -> Result<machine::guest::BotModule, EngineError> {
    let world = World::new();
    create_bot_module(text.as_bytes(), world.ball())
}

fn error_of(text: &str) -> EngineError {
    match load(text) {
        Ok(_) => panic!("the module loaded"),
        Err(error) => error,
    }
}

#[test]
fn cost_table() {
    assert_eq!(operator_cost(OperatorKind::LocalGet), 1);
    assert_eq!(operator_cost(OperatorKind::I32Const), 1);
    assert_eq!(operator_cost(OperatorKind::I32Add), 2);
    assert_eq!(operator_cost(OperatorKind::Other), 1);
    assert_eq!(INIT_GAS, 1_000);
    assert_eq!(COMPUTE_ACTIONS_GAS, 1_000_000);
}

#[test]
fn charging_takes_the_cost_off_until_nothing_is_left() {
    let budget = MeteringPoints::Remaining(5);
    assert_eq!(budget.charge(2), MeteringPoints::Remaining(3));
    assert_eq!(budget.charge(2).charge(3), MeteringPoints::Remaining(0));
    assert_eq!(budget.charge(2).charge(3).charge(0), MeteringPoints::Remaining(0));
    assert_eq!(budget.charge(6), MeteringPoints::Exhausted);
    assert_eq!(budget.charge(6).charge(0), MeteringPoints::Exhausted);
    assert!(MeteringPoints::Remaining(0).is_spent());
    assert!(MeteringPoints::Exhausted.is_spent());
    assert!(!MeteringPoints::Remaining(1).is_spent());
}

#[test]
fn settling_a_call() {
    assert_eq!(settle_call(Some(7), MeteringPoints::Remaining(3)), Ok(Some(7)));
    assert_eq!(settle_call(Some(7), MeteringPoints::Exhausted), Ok(Some(7)));
    assert_eq!(settle_call(None, MeteringPoints::Exhausted), Ok(None));
    assert_eq!(settle_call(None, MeteringPoints::Remaining(0)), Ok(None));
    assert_eq!(settle_call(None, MeteringPoints::Remaining(1)), Err(EngineError::GuestTrap));
    assert_eq!(settle_action(Some(7), MeteringPoints::Remaining(3)), Ok(7));
    assert_eq!(settle_action(None, MeteringPoints::Exhausted), Ok(8421504));
    assert_eq!(settle_action(None, MeteringPoints::Remaining(9)), Err(EngineError::GuestTrap));
}

#[test]
fn export_checks() {
    assert_eq!(check_export(false, false), Err(EngineError::MissingExport));
    assert_eq!(check_export(false, true), Err(EngineError::MissingExport));
    assert_eq!(check_export(true, false), Err(EngineError::SignatureMismatch));
    assert_eq!(check_export(true, true), Ok(()));
}

#[test]
fn signatures() {
    let init = Signature { params: vec![ValueKind::I32], results: vec![] };
    assert!(init.is_init());
    assert!(!init.is_compute_actions());
    let compute = Signature { params: vec![ValueKind::F32; 9], results: vec![ValueKind::I32] };
    assert!(compute.is_compute_actions());
    assert!(!compute.is_init());
    let short = Signature { params: vec![ValueKind::F32; 8], results: vec![ValueKind::I32] };
    assert!(!short.is_compute_actions());
    let mut mixed = vec![ValueKind::F32; 9];
    mixed[8] = ValueKind::F64;
    assert!(!Signature { params: mixed, results: vec![ValueKind::I32] }.is_compute_actions());
    let wide = Signature { params: vec![ValueKind::I64], results: vec![] };
    assert!(!wide.is_init());
    let chatty = Signature { params: vec![ValueKind::I32], results: vec![ValueKind::I32] };
    assert!(!chatty.is_init());
}

#[test]
fn arguments_are_own_ball_enemy() {
    let list = arguments(
        Position { x: 1, y: 2, z: 3 },
        Position { x: 4, y: 5, z: 6 },
        Position { x: 7, y: 8, z: 9 },
    );
    assert_eq!(list, vec![1, 2, 3, 4, 5, 6, 7, 8, 9]);
}

#[test]
fn garbage_does_not_compile() {
    assert_eq!(error_of("\u{0}asm garbage"), EngineError::CompileError);
    let world = World::new();
    let loaded = create_bot_module(&[0x00, 0x61, 0x73, 0x6d, 0xff, 0xff], world.ball());
    assert_eq!(loaded.err(), Some(EngineError::CompileError));
    assert_eq!(create_bot_module(&[], world.ball()).err(), Some(EngineError::CompileError));
}

#[test]
fn missing_entry_points_are_reported() {
    let no_compute = r#"(module (func (export "init") (param i32)))"#;
    assert_eq!(error_of(no_compute), EngineError::MissingExport);
    let no_init = r#"(module (func (export "compute_actions")
        (param f32 f32 f32 f32 f32 f32 f32 f32 f32) (result i32) i32.const 0))"#;
    assert_eq!(error_of(no_init), EngineError::MissingExport);
    let not_a_function = r#"(module (global (export "init") i32 (i32.const 0)))"#;
    assert_eq!(error_of(not_a_function), EngineError::MissingExport);
}

#[test]
fn wrong_signatures_are_reported() {
    let init_returns = r#"(module
      (func (export "init") (param i32) (result i32) i32.const 0)
      (func (export "compute_actions")
        (param f32 f32 f32 f32 f32 f32 f32 f32 f32) (result i32) i32.const 0))"#;
    assert_eq!(error_of(init_returns), EngineError::SignatureMismatch);
    let two_positions = r#"(module
      (func (export "init") (param i32))
      (func (export "compute_actions") (param f32 f32 f32 f32 f32 f32) (result i32) i32.const 0))"#;
    assert_eq!(error_of(two_positions), EngineError::SignatureMismatch);
    let integers = r#"(module
      (func (export "init") (param i32))
      (func (export "compute_actions")
        (param i32 i32 i32 i32 i32 i32 i32 i32 i32) (result i32) i32.const 0))"#;
    assert_eq!(error_of(integers), EngineError::SignatureMismatch);
}

#[test]
fn unknown_import_does_not_link() {
    let greedy = r#"(module
      (import "env" "read_clock" (func $clock (result i64)))
      (func (export "init") (param i32))
      (func (export "compute_actions")
        (param f32 f32 f32 f32 f32 f32 f32 f32 f32) (result i32) i32.const 0))"#;
    assert_eq!(error_of(greedy), EngineError::InstantiationError);
    let mistyped = r#"(module
      (import "env" "print_u32" (func $print (param i64)))
      (func (export "init") (param i32))
      (func (export "compute_actions")
        (param f32 f32 f32 f32 f32 f32 f32 f32 f32) (result i32) i32.const 0))"#;
    assert_eq!(error_of(mistyped), EngineError::InstantiationError);
}

#[test]
fn loaded_bot_keeps_its_handle() {
    let world = World::new();
    let bot = create_bot_module(NORTH.as_bytes(), world.ball()).expect("loads");
    assert_eq!(bot.handle(), world.ball());
}

#[test]
fn init_prints_the_seed() {
    let mut bot = load(NORTH).expect("loads");
    assert_eq!(bot.printed(), Vec::<u32>::new());
    bot.set_remaining_points(INIT_GAS);
    assert_eq!(bot.init(0), Ok(()));
    assert_eq!(bot.printed(), vec![0]);
    bot.set_remaining_points(INIT_GAS);
    assert_eq!(bot.init(4_000_000_000), Ok(()));
    assert_eq!(bot.printed(), vec![0, 4_000_000_000]);
}

#[test]
fn budget_is_set_and_spent() {
    let mut bot = load(NORTH).expect("loads");
    bot.set_remaining_points(INIT_GAS);
    assert_eq!(bot.remaining_points(), MeteringPoints::Remaining(INIT_GAS));
    assert_eq!(bot.init(1), Ok(()));
    let left = match bot.remaining_points() {
        MeteringPoints::Remaining(left) => left,
        MeteringPoints::Exhausted => panic!("init ran out of budget"),
    };
    assert!(left < INIT_GAS);
    assert!(left >= INIT_GAS - 6);
    bot.set_remaining_points(INIT_GAS);
    assert_eq!(bot.init(2), Ok(()));
    assert_eq!(bot.remaining_points(), MeteringPoints::Remaining(left));
    bot.set_remaining_points(77);
    assert_eq!(bot.remaining_points(), MeteringPoints::Remaining(77));
}

#[test]
fn north_bot_answers_north() {
    let mut bot = load(NORTH).expect("loads");
    bot.set_remaining_points(COMPUTE_ACTIONS_GAS);
    let origin = place(0.0, 0.0, 0.0);
    assert_eq!(bot.compute_actions(origin, origin, origin), Ok(8454016));
    assert_eq!(machine::codec::encode_action(0, 1, 0, 1), 8454016);
}

#[test]
fn positions_reach_the_guest_bit_for_bit() {
    let mut bot = load(ECHO).expect("loads");
    bot.set_remaining_points(COMPUTE_ACTIONS_GAS);
    let own = place(-9.0, 0.25, 0.25);
    let ball = place(0.0, 9.75, -0.0);
    let enemy = place(9.0, f32::MIN_POSITIVE, 1.5e-42);
    assert_eq!(bot.compute_actions(own, ball, enemy), Ok(1.5e-42f32.to_bits()));
    assert_eq!(bot.printed(), vec![(-9.0f32).to_bits(), 9.75f32.to_bits()]);
}

#[test]
fn spinning_guest_runs_out_of_budget() {
    let mut bot = load(SPINNER).expect("loads");
    bot.set_remaining_points(10_000);
    let origin = place(0.0, 0.0, 0.0);
    assert_eq!(bot.compute_actions(origin, origin, origin), Ok(8421504));
    assert_eq!(bot.remaining_points(), MeteringPoints::Exhausted);
    bot.set_remaining_points(10_000);
    assert_eq!(bot.remaining_points(), MeteringPoints::Remaining(10_000));
    assert_eq!(bot.compute_actions(origin, origin, origin), Ok(8421504));
}

#[test]
fn spinning_init_counts_as_done() {
    let mut bot = load(BUSY_INIT).expect("loads");
    bot.set_remaining_points(INIT_GAS);
    assert_eq!(bot.init(0), Ok(()));
    assert_eq!(bot.remaining_points(), MeteringPoints::Exhausted);
}

#[test]
fn trap_with_budget_left_is_a_fault() {
    let mut bot = load(FAULTY).expect("loads");
    bot.set_remaining_points(COMPUTE_ACTIONS_GAS);
    let origin = place(0.0, 0.0, 0.0);
    assert_eq!(bot.compute_actions(origin, origin, origin), Err(EngineError::GuestTrap));
}

#[test]
fn error_names() {
    assert_eq!(EngineError::CompileError.name(), "compile error");
    assert_eq!(EngineError::MissingExport.name(), "missing export");
    assert_eq!(EngineError::SignatureMismatch.name(), "signature mismatch");
    assert_eq!(EngineError::InstantiationError.name(), "instantiation error");
    assert_eq!(EngineError::GuestTrap.name(), "guest trap");
    assert_eq!(EngineError::TooManyBots.name(), "too many bots");
    assert_eq!(EngineError::InvalidStateTransition.name(), "invalid state transition");
}

const ADDER: &str = r#"(module
  (func (export "init") (param i32)
    (local i32)
    (loop $again
      local.get 1
      i32.const 1
      i32.add
      local.tee 1
      i32.const 10
      i32.lt_u
      br_if $again))
  (func (export "compute_actions")
    (param f32 f32 f32 f32 f32 f32 f32 f32 f32) (result i32)
    i32.const 1
    i32.const 2
    i32.add
    i32.const 3
    i32.add))"#;

#[test]
fn gas_is_charged_by_the_cost_table() {
    let origin = place(0.0, 0.0, 0.0);
    let mut north = load(NORTH).expect("loads");
    north.set_remaining_points(1_000);
    assert_eq!(north.init(7), Ok(()));
    assert_eq!(north.remaining_points(), MeteringPoints::Remaining(997));
    north.set_remaining_points(1_000);
    assert_eq!(north.compute_actions(origin, origin, origin), Ok(8454016));
    assert_eq!(north.remaining_points(), MeteringPoints::Remaining(998));

    let mut adder = load(ADDER).expect("loads");
    adder.set_remaining_points(1_000);
    assert_eq!(adder.compute_actions(origin, origin, origin), Ok(6));
    assert_eq!(adder.remaining_points(), MeteringPoints::Remaining(992));
    adder.set_remaining_points(1_000);
    assert_eq!(adder.init(0), Ok(()));
    assert_eq!(adder.remaining_points(), MeteringPoints::Remaining(917));
}

#[test]
fn budget_that_just_fits_is_not_exhausted() {
    let origin = place(0.0, 0.0, 0.0);
    let mut adder = load(ADDER).expect("loads");
    adder.set_remaining_points(8);
    assert_eq!(adder.compute_actions(origin, origin, origin), Ok(6));
    assert_eq!(adder.remaining_points(), MeteringPoints::Remaining(0));
    adder.set_remaining_points(7);
    assert_eq!(adder.compute_actions(origin, origin, origin), Ok(8421504));
    assert_eq!(adder.remaining_points(), MeteringPoints::Exhausted);
    adder.set_remaining_points(0);
    assert_eq!(adder.compute_actions(origin, origin, origin), Ok(8421504));
    assert_eq!(adder.remaining_points(), MeteringPoints::Exhausted);
}

#[test]
fn budget_model_agrees_with_the_sandbox() {
    let costs = [
        operator_cost(OperatorKind::I32Const),
        operator_cost(OperatorKind::I32Const),
        operator_cost(OperatorKind::I32Add),
        operator_cost(OperatorKind::I32Const),
        operator_cost(OperatorKind::I32Add),
        operator_cost(OperatorKind::Other),
    ];
    let origin = place(0.0, 0.0, 0.0);
    let mut adder = load(ADDER).expect("loads");
    for budget in [1_000u64, 9, 8, 7, 1, 0] {
        let mut modelled = MeteringPoints::Remaining(budget);
        for cost in costs {
            modelled = modelled.charge(cost);
        }
        adder.set_remaining_points(budget);
        let _ = adder.compute_actions(origin, origin, origin);
        assert_eq!(adder.remaining_points(), modelled, "with a budget of {}", budget);
    }
}

#[test]
fn host_bridge_records_in_order() {
    let mut record = vec![1];
    print_u32(&mut record, 2);
    print_u32(&mut record, 0);
    print_u32(&mut record, u32::MAX);
    assert_eq!(record, vec![1, 2, 0, u32::MAX]);
}

#[test]
fn magic_number_alone_does_not_compile() {
    let world = World::new();
    let loaded = create_bot_module(&[0x00, 0x61, 0x73, 0x6d], world.ball());
    assert_eq!(loaded.err(), Some(EngineError::CompileError));
}

#[test]
fn first_failure_decides_what_loading_comes_to() {
    let init = Some(Signature { params: vec![ValueKind::I32], results: vec![] });
    let compute =
        Some(Signature { params: vec![ValueKind::F32; 9], results: vec![ValueKind::I32] });
    let wrong = Some(Signature { params: vec![], results: vec![] });
    assert_eq!(load_outcome(true, true, &init, &compute), Ok(()));
    assert_eq!(load_outcome(false, true, &init, &compute), Err(EngineError::CompileError));
    assert_eq!(load_outcome(false, false, &None, &None), Err(EngineError::CompileError));
    assert_eq!(load_outcome(true, false, &init, &compute), Err(EngineError::InstantiationError));
    assert_eq!(load_outcome(true, false, &None, &wrong), Err(EngineError::InstantiationError));
    assert_eq!(load_outcome(true, true, &None, &compute), Err(EngineError::MissingExport));
    assert_eq!(load_outcome(true, true, &None, &wrong), Err(EngineError::MissingExport));
    assert_eq!(load_outcome(true, true, &wrong, &None), Err(EngineError::SignatureMismatch));
    assert_eq!(load_outcome(true, true, &compute, &compute), Err(EngineError::SignatureMismatch));
    assert_eq!(load_outcome(true, true, &init, &None), Err(EngineError::MissingExport));
    assert_eq!(load_outcome(true, true, &init, &wrong), Err(EngineError::SignatureMismatch));
    assert_eq!(load_outcome(true, true, &init, &init), Err(EngineError::SignatureMismatch));
}

#[test]
fn host_bridge_is_env_print_u32() {
    assert_eq!(BRIDGE_NAMESPACE, "env");
    assert_eq!(BRIDGE_FUNCTION, "print_u32");
    let other_namespace = r#"(module
      (import "host" "print_u32" (func $print (param i32)))
      (func (export "init") (param i32))
      (func (export "compute_actions")
        (param f32 f32 f32 f32 f32 f32 f32 f32 f32) (result i32) i32.const 0))"#;
    assert_eq!(error_of(other_namespace), EngineError::InstantiationError);
}

#[test]
fn same_bytes_load_alike() {
    for text in [NORTH, ECHO, SPINNER, FAULTY, "(module)", "not a module"] {
        let first = load(text).map(|_| ());
        let second = load(text).map(|_| ());
        assert_eq!(first, second);
    }
    let mut first = load(ADDER).expect("loads");
    let mut second = load(ADDER).expect("loads");
    let origin = place(0.0, 0.0, 0.0);
    for bot in [&mut first, &mut second] {
        bot.set_remaining_points(500);
    }
    assert_eq!(
        first.compute_actions(origin, origin, origin),
        second.compute_actions(origin, origin, origin)
    );
    assert_eq!(first.remaining_points(), second.remaining_points());
}

fn import(namespace: &str, name: &str, function: Option<Signature>) -> Import {
    Import { namespace: namespace.to_string(), name: name.to_string(), function }
}

fn one_integer() -> Option<Signature> {
    Some(Signature { params: vec![ValueKind::I32], results: vec![] })
}

#[test]
fn bridge_offers_one_function() {
    assert!(is_bridge_import(&import("env", "print_u32", one_integer())));
    assert!(!is_bridge_import(&import("Env", "print_u32", one_integer())));
    assert!(!is_bridge_import(&import("env", "print_u64", one_integer())));
    assert!(!is_bridge_import(&import("", "", one_integer())));
    assert!(!is_bridge_import(&import("env", "print_u32", None)));
    let wide = Some(Signature { params: vec![ValueKind::I64], results: vec![] });
    assert!(!is_bridge_import(&import("env", "print_u32", wide)));
    let chatty = Some(Signature { params: vec![ValueKind::I32], results: vec![ValueKind::I32] });
    assert!(!is_bridge_import(&import("env", "print_u32", chatty)));
}

#[test]
fn every_import_must_be_offered() {
    assert!(within_bridge(&Vec::new()));
    assert!(within_bridge(&vec![import("env", "print_u32", one_integer())]));
    assert!(within_bridge(&vec![
        import("env", "print_u32", one_integer()),
        import("env", "print_u32", one_integer()),
    ]));
    assert!(!within_bridge(&vec![
        import("env", "print_u32", one_integer()),
        import("env", "memory", None),
    ]));
    assert!(!within_bridge(&vec![import("wasi", "clock", one_integer())]));
}

#[test]
fn imported_memory_is_not_linked() {
    let wants_memory = r#"(module
      (import "env" "memory" (memory 1))
      (func (export "init") (param i32))
      (func (export "compute_actions")
        (param f32 f32 f32 f32 f32 f32 f32 f32 f32) (result i32) i32.const 0))"#;
    assert_eq!(error_of(wants_memory), EngineError::InstantiationError);
    let twice = r#"(module
      (import "env" "print_u32" (func $a (param i32)))
      (import "env" "print_u32" (func $b (param i32)))
      (func (export "init") (param i32) local.get 0 call $a local.get 0 call $b)
      (func (export "compute_actions")
        (param f32 f32 f32 f32 f32 f32 f32 f32 f32) (result i32) i32.const 0))"#;
    let mut bot = load(twice).expect("loads");
    bot.set_remaining_points(INIT_GAS);
    assert_eq!(bot.init(9), Ok(()));
    assert_eq!(bot.printed(), vec![9, 9]);
}

#[test]
fn fault_names_the_frames_of_the_guest() {
    let nested = r#"(module
      (func $inner unreachable)
      (func $outer call $inner)
      (func (export "init") (param i32) call $outer)
      (func (export "compute_actions")
        (param f32 f32 f32 f32 f32 f32 f32 f32 f32) (result i32) i32.const 0))"#;
    let mut bot = load(nested).expect("loads");
    assert_eq!(bot.fault(), None);
    bot.set_remaining_points(INIT_GAS);
    assert_eq!(bot.init(0), Err(EngineError::GuestTrap));
    let message = bot.fault().expect("the sandbox said why");
    let lines: Vec<&str> = message.lines().collect();
    assert!(lines[0].contains("unreachable"), "{}", message);
    assert_eq!(lines.len(), 4, "{}", message);
    assert!(lines[1].contains("inner"), "{}", message);
    assert!(lines[2].contains("outer"), "{}", message);
}
