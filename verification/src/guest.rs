//! Guest programs: loading untrusted bytes into a metered sandbox,
//! checking the two entry points, and calling them under a budget.

use vstd::prelude::*;
use std::sync::Arc;
use rapier3d::dynamics::RigidBodyHandle;
use wasmer::sys::{CompilerConfig, EngineBuilder};
use wasmer::wasmparser::Operator;
use wasmer::{
    CompileError, Function, FunctionEnv, FunctionEnvMut, Imports, Instance,
    ExternType, InstantiationError, Module, RuntimeError, Store, Type, Value,
};
use wasmer_compiler_cranelift::Cranelift;
use wasmer_middlewares::metering::{get_remaining_points, set_remaining_points};
use wasmer_middlewares::Metering;
use crate::error::EngineError;
use crate::metering::{
    operator_cost, settle_action, settle_call, spec_settle_action, spec_settle_call,
    MeteringPoints, OperatorKind, INITIAL_POINTS,
};
use crate::world::Position;

verus! {

#[verifier::external_type_specification]
#[verifier::external_body]
pub struct ExStore(wasmer::Store);

#[verifier::external_type_specification]
#[verifier::external_body]
pub struct ExModule(wasmer::Module);

#[verifier::external_type_specification]
#[verifier::external_body]
pub struct ExInstance(wasmer::Instance);

#[verifier::external_type_specification]
#[verifier::external_body]
pub struct ExFunction(wasmer::Function);

#[verifier::external_type_specification]
#[verifier::external_body]
#[verifier::reject_recursive_types(T)]
pub struct ExFunctionEnv<T>(wasmer::FunctionEnv<T>);

#[verifier::external_type_specification]
#[verifier::external_body]
pub struct ExCompileError(wasmer::CompileError);

#[verifier::external_type_specification]
#[verifier::external_body]
pub struct ExInstantiationError(wasmer::InstantiationError);

#[verifier::external_type_specification]
#[verifier::external_body]
pub struct ExRuntimeError(wasmer::RuntimeError);

#[verifier::external_type_specification]
#[verifier::external_body]
pub struct ExType(wasmer::Type);

#[verifier::external_type_specification]
#[verifier::external_body]
pub struct ExOperator<'a>(wasmer::wasmparser::Operator<'a>);

/// The kinds of value that cross the sandbox boundary.
#[derive(Clone, Copy, Debug, PartialEq, Eq, Structural)]
pub enum ValueKind {
    I32,
    I64,
    F32,
    F64,
    V128,
    ExternRef,
    FuncRef,
    ExceptionRef,
}

/// What a guest function takes and returns.
pub struct Signature {
    pub params: Vec<ValueKind>,
    pub results: Vec<ValueKind>,
}

/// Something that a guest asks its host for.
pub struct Import {
    /// The namespace it is asked for under.
    pub namespace: String,
    /// Its name in that namespace.
    pub name: String,
    /// Its signature, if it is a function.
    pub function: Option<Signature>,
}

/// An import as plain values.
pub struct ImportView {
    pub namespace: Seq<char>,
    pub name: Seq<char>,
    pub function: Option<(Seq<ValueKind>, Seq<ValueKind>)>,
}

/// One loaded competitor: its sandbox, its two entry points, the
/// numbers it has printed, and the body that embodies it.  It also
/// keeps what it was last handed (the budget, the seed, the nine
/// arguments) and what it last answered: the calls into the sandbox
/// hand over what is kept here and nothing else.
///
/// A bot is made by [`create_bot_module`] only, so its sandbox meters
/// every operation, and its entry points have the signatures that the
/// guest interface asks for.
pub struct BotModule {
    instance: Instance,
    store: Store,
    printed: FunctionEnv<Vec<u32>>,
    init: Function,
    compute_actions: Function,
    handle: RigidBodyHandle,
    fault: Option<String>,
    granted: u64,
    seed: u32,
    asked: Vec<u32>,
    answered: Option<u32>,
}

/// What is left of the budget that a store keeps for an instance.
pub uninterp spec fn spec_points_left(store: Store, instance: Instance) -> MeteringPoints;

/// Whether guest bytes are a well-formed module that the metered
/// sandbox can compile.
pub uninterp spec fn spec_compiles(bytes: Seq<u8>) -> bool;

/// The function that the module made of these bytes exports under a
/// name: the kinds of its parameters and of its results.  `None` if it
/// exports no function under that name.
pub uninterp spec fn spec_export(bytes: Seq<u8>, name: Seq<char>) -> Option<
    (Seq<ValueKind>, Seq<ValueKind>),
>;

/// What the module made of these bytes asks its host for, in the
/// order of the bytes.
pub uninterp spec fn spec_imports(bytes: Seq<u8>) -> Seq<ImportView>;

/// The bytes that a module was compiled from.
pub uninterp spec fn spec_module_source(module: Module) -> Seq<u8>;

/// The bytes that an instance's module was compiled from.
pub uninterp spec fn spec_instance_source(instance: Instance) -> Seq<u8>;

/// The numbers that a record holds, oldest first.  The record is kept
/// in the store.
pub uninterp spec fn spec_recorded(store: Store, record: FunctionEnv<Vec<u32>>) -> Seq<u32>;

/// Whether everything that a bot keeps outside its sandbox is as it
/// was.
pub closed spec fn spec_kept(before: BotModule, after: BotModule) -> bool {
    &&& after.handle == before.handle
    &&& after.fault == before.fault
    &&& after.granted == before.granted
    &&& after.seed == before.seed
    &&& after.asked == before.asked
    &&& after.answered == before.answered
    &&& spec_instance_source(after.instance) == spec_instance_source(before.instance)
}

/// Whether a budget has nothing left to spend.
pub open spec fn spec_is_spent(points: MeteringPoints) -> bool {
    points == MeteringPoints::Exhausted || points == MeteringPoints::Remaining(0)
}

/// The namespace under which the host bridge offers its one function.
pub const BRIDGE_NAMESPACE: &'static str = "env";

/// The name of the host bridge's one function.
pub const BRIDGE_FUNCTION: &'static str = "print_u32";

/// What `init` must take: one 32-bit integer.
pub open spec fn spec_init_params() -> Seq<ValueKind> {
    seq![ValueKind::I32]
}

/// What `compute_actions` must take: nine single-precision numbers.
pub open spec fn spec_compute_params() -> Seq<ValueKind> {
    Seq::new(9, |i: int| ValueKind::F32)
}

/// Whether a signature is that of `init`: one integer in, nothing out.
pub open spec fn spec_is_init_signature(params: Seq<ValueKind>, results: Seq<ValueKind>) -> bool {
    params == spec_init_params() && results == Seq::<ValueKind>::empty()
}

/// Whether a signature is that of `compute_actions`: nine
/// single-precision numbers in, one integer out.
pub open spec fn spec_is_compute_signature(
    params: Seq<ValueKind>,
    results: Seq<ValueKind>,
) -> bool {
    params == spec_compute_params() && results == seq![ValueKind::I32]
}

/// What a settled `init` call comes to: done, or the guest's fault.
pub open spec fn spec_settle_init(settled: Result<Option<u32>, EngineError>) -> Result<
    (),
    EngineError,
> {
    match settled {
        Ok(_) => Ok(()),
        Err(error) => Err(error),
    }
}

/// A signature as two runs of kinds.
pub open spec fn spec_signature_view(signature: Option<Signature>) -> Option<
    (Seq<ValueKind>, Seq<ValueKind>),
> {
    match signature {
        Some(signature) => Some((signature.params@, signature.results@)),
        None => None,
    }
}

/// Whether an export is a function with the signature of `init`.
pub open spec fn spec_exports_init(export: Option<(Seq<ValueKind>, Seq<ValueKind>)>) -> bool {
    export matches Some(signature) && spec_is_init_signature(signature.0, signature.1)
}

/// Whether an export is a function with the signature of
/// `compute_actions`.
pub open spec fn spec_exports_compute_actions(
    export: Option<(Seq<ValueKind>, Seq<ValueKind>)>,
) -> bool {
    export matches Some(signature) && spec_is_compute_signature(signature.0, signature.1)
}

/// An import as plain values.
pub open spec fn spec_import_view(import: Import) -> ImportView {
    ImportView {
        namespace: import.namespace@,
        name: import.name@,
        function: spec_signature_view(import.function),
    }
}

/// A run of imports as plain values.
pub open spec fn spec_imports_view(imports: Seq<Import>) -> Seq<ImportView> {
    Seq::new(imports.len(), |i: int| spec_import_view(imports[i]))
}

/// Whether an import is the one thing that the host bridge offers:
/// the function `env.print_u32`, which takes one 32-bit integer and
/// returns nothing.
pub open spec fn spec_is_bridge_import(import: ImportView) -> bool {
    &&& import.namespace == "env"@
    &&& import.name == "print_u32"@
    &&& spec_exports_init(import.function)
}

/// Whether the host bridge offers everything in a run of imports.
pub open spec fn spec_within_bridge(imports: Seq<ImportView>) -> bool {
    forall|i: int| 0 <= i < imports.len() ==> spec_is_bridge_import(#[trigger] imports[i])
}

/// What loading comes to, given whether the bytes compile, whether the
/// module links against the host bridge, and what it exports as
/// `init` and as `compute_actions`.  The first of these that fails
/// decides: compiling, linking, `init`, `compute_actions`; an export
/// that is missing comes before one with the wrong signature.
pub open spec fn spec_load_outcome(
    compiles: bool,
    links: bool,
    init: Option<(Seq<ValueKind>, Seq<ValueKind>)>,
    compute_actions: Option<(Seq<ValueKind>, Seq<ValueKind>)>,
) -> Result<(), EngineError> {
    if !compiles {
        Err(EngineError::CompileError)
    } else if !links {
        Err(EngineError::InstantiationError)
    } else if init.is_none() {
        Err(EngineError::MissingExport)
    } else if !spec_exports_init(init) {
        Err(EngineError::SignatureMismatch)
    } else if compute_actions.is_none() {
        Err(EngineError::MissingExport)
    } else if !spec_exports_compute_actions(compute_actions) {
        Err(EngineError::SignatureMismatch)
    } else {
        Ok(())
    }
}

/// Whether guest bytes compile, ask for no more than the host bridge
/// offers, and export both entry points with the signatures that the
/// guest interface asks for.
pub open spec fn spec_is_guest(bytes: Seq<u8>) -> bool {
    &&& spec_compiles(bytes)
    &&& spec_within_bridge(spec_imports(bytes))
    &&& spec_exports_init(spec_export(bytes, "init"@))
    &&& spec_exports_compute_actions(spec_export(bytes, "compute_actions"@))
}

/// What loading guest bytes comes to, given whether the sandbox links
/// their module against the host bridge.  A module that asks for more
/// than the bridge offers is not linked.
pub open spec fn spec_load(bytes: Seq<u8>, links: bool) -> Result<(), EngineError> {
    spec_load_outcome(
        spec_compiles(bytes),
        links && spec_within_bridge(spec_imports(bytes)),
        spec_export(bytes, "init"@),
        spec_export(bytes, "compute_actions"@),
    )
}

/// The outcome of loading without the bot it may have made.
pub open spec fn spec_loaded_view(loaded: Result<BotModule, EngineError>) -> Result<
    (),
    EngineError,
> {
    match loaded {
        Ok(_) => Ok(()),
        Err(error) => Err(error),
    }
}

/// What the check of one entry point comes to: the export must exist,
/// and its signature must be the expected one.
pub open spec fn spec_check_export(found: bool, matches: bool) -> Result<(), EngineError> {
    if !found {
        Err(EngineError::MissingExport)
    } else if !matches {
        Err(EngineError::SignatureMismatch)
    } else {
        Ok(())
    }
}

/// The nine arguments of `compute_actions`: the bot's own position,
/// the ball's, and the enemy's.
pub open spec fn spec_arguments(own: Position, ball: Position, enemy: Position) -> Seq<u32> {
    seq![own.x, own.y, own.z, ball.x, ball.y, ball.z, enemy.x, enemy.y, enemy.z]
}

/// Tells the operators apart that the cost table prices: one arm for
/// each of `Operator::LocalGet`, `Operator::I32Const` and
/// `Operator::I32Add`, and one for all others.
#[verifier::external_body]
fn operator_kind(operator: &Operator<'_>) -> (kind: OperatorKind) {
    match operator {
        Operator::LocalGet { .. } => OperatorKind::LocalGet,
        Operator::I32Const { .. } => OperatorKind::I32Const,
        Operator::I32Add { .. } => OperatorKind::I32Add,
        _ => OperatorKind::Other,
    }
}

/// Tells the variants of `wasmer::Type` apart, one arm each.
#[verifier::external_body]
fn value_kind(ty: Type) -> (kind: ValueKind) {
    match ty {
        Type::I32 => ValueKind::I32,
        Type::I64 => ValueKind::I64,
        Type::F32 => ValueKind::F32,
        Type::F64 => ValueKind::F64,
        Type::V128 => ValueKind::V128,
        Type::ExternRef => ValueKind::ExternRef,
        Type::FuncRef => ValueKind::FuncRef,
        Type::ExceptionRef => ValueKind::ExceptionRef,
    }
}

/// `Metering::new`, `Cranelift::default`, `push_middleware`,
/// `EngineBuilder::new` and `Store::new`: a store whose compiler
/// charges every operation what the cost table says.
#[verifier::external_body]
fn metered_store(initial_points: u64) -> (store: Store) {
    let metering = Metering::new(initial_points, |operator: &Operator| {
        operator_cost(operator_kind(operator))
    });
    let mut compiler = Cranelift::default();
    compiler.push_middleware(Arc::new(metering));
    Store::new(EngineBuilder::new(compiler))
}

/// `Module::new`, for a store made by `metered_store`: compiles guest
/// bytes.  Whether it succeeds is a matter of the bytes alone, and the
/// module is that of these bytes.
#[verifier::external_body]
fn compile(store: &Store, bytes: &[u8]) -> (compiled: Result<Module, CompileError>)
    ensures
        compiled.is_ok() == spec_compiles(bytes@),
        compiled matches Ok(module) ==> spec_module_source(module) == bytes@,
{
    Module::new(store, bytes)
}

/// `Module::imports`: what the module asks its host for, in the order
/// of its bytes; for each import its namespace, its name and, if it is
/// a function, the kinds of its parameters and of its results.
#[verifier::external_body]
fn imports_of(module: &Module) -> (imports: Vec<Import>)
    ensures
        spec_imports_view(imports@) == spec_imports(spec_module_source(*module)),
{
    module.imports().map(|import| Import {
        namespace: import.module().to_string(),
        name: import.name().to_string(),
        function: match import.ty() {
            ExternType::Function(ty) => Some(Signature {
                params: ty.params().iter().map(|kind| value_kind(*kind)).collect(),
                results: ty.results().iter().map(|kind| value_kind(*kind)).collect(),
            }),
            _ => None,
        },
    }).collect()
}

/// `FunctionEnv::new`: an empty record of printed numbers, kept in the
/// store.
#[verifier::external_body]
fn new_record(store: &mut Store) -> (record: FunctionEnv<Vec<u32>>)
    ensures
        spec_recorded(*final(store), record) == Seq::<u32>::empty(),
{
    FunctionEnv::new(store, Vec::new())
}

/// `Function::new_typed_with_env`, `Imports::define` and
/// `Instance::new`: links the module against a host bridge that offers
/// one function, under the given namespace and name, which takes a
/// 32-bit integer and hands it to [`print_u32`] with the record.  An
/// instance is one of the module it was made from.
#[verifier::external_body]
fn instantiate(
    store: &mut Store,
    module: &Module,
    record: &FunctionEnv<Vec<u32>>,
    namespace: &str,
    name: &str,
) -> (linked: Result<Instance, InstantiationError>)
    ensures
        linked matches Ok(instance) ==> spec_instance_source(instance) == spec_module_source(
            *module,
        ),
{
    let print = Function::new_typed_with_env(
        store,
        record,
        |mut env: FunctionEnvMut<Vec<u32>>, value: u32| print_u32(env.data_mut(), value),
    );
    let mut imports = Imports::new();
    imports.define(namespace, name, print);
    Instance::new(store, module, &imports)
}

/// `Exports::get_function`: the exported function of that name, or
/// `None` if the instance exports no function under it.  An instance
/// exports the functions that the bytes of its module export.
#[verifier::external_body]
fn exported_function(instance: &Instance, name: &str) -> (function: Option<Function>)
    ensures
        function.is_some() == spec_export(spec_instance_source(*instance), name@).is_some(),
{
    instance.exports.get_function(name).ok().cloned()
}

/// `Exports::get_function` and `Function::ty`: the kinds of the
/// parameters and of the results, in order, of the function that the
/// instance exports under that name, or `None` if it exports no
/// function under it.
#[verifier::external_body]
fn export_signature(store: &Store, instance: &Instance, name: &str) -> (signature: Option<
    Signature,
>)
    ensures
        spec_signature_view(signature) == spec_export(spec_instance_source(*instance), name@),
{
    instance.exports.get_function(name).ok().map(|function| function.ty(store)).map(|ty| Signature {
        params: ty.params().iter().map(|kind| value_kind(*kind)).collect(),
        results: ty.results().iter().map(|kind| value_kind(*kind)).collect(),
    })
}

/// `Function::call` on the bot's `init`, with the seed that the bot
/// keeps.
/// The guest reaches the record through the host bridge alone, which
/// appends to it: what the record held before the call, it holds
/// after it, in the same places.
#[verifier::external_body]
fn call_init(bot: &mut BotModule) -> (outcome: Result<(), RuntimeError>)
    requires
        spec_exports_init(spec_export(spec_instance_source(old(bot).instance), "init"@)),
    ensures
        spec_kept(*old(bot), *final(bot)),
        spec_recorded(old(bot).store, old(bot).printed).is_prefix_of(
            spec_recorded(final(bot).store, final(bot).printed),
        ),
{
    bot.init.call(&mut bot.store, &[Value::I32(bot.seed as i32)]).map(|_| ())
}

/// `Function::call_raw` on the bot's `compute_actions`, whose
/// parameters are nine single-precision numbers and whose result is
/// one 32-bit integer: hands over the nine numbers that the bot
/// keeps, each as its bit pattern, and returns the integer, or `None`
/// if the call gave no integer back.  The raw call checks neither
/// the number nor the kinds of what it is handed: it is for a function
/// with the signature of `compute_actions` only.
/// The guest reaches the record through the host bridge alone, which
/// appends to it: what the record held before the call, it holds
/// after it, in the same places.
#[verifier::external_body]
fn call_compute_actions(bot: &mut BotModule) -> (outcome: Result<Option<u32>, RuntimeError>)
    requires
        old(bot).asked.len() == 9,
        spec_exports_compute_actions(
            spec_export(spec_instance_source(old(bot).instance), "compute_actions"@),
        ),
    ensures
        spec_kept(*old(bot), *final(bot)),
        spec_recorded(old(bot).store, old(bot).printed).is_prefix_of(
            spec_recorded(final(bot).store, final(bot).printed),
        ),
{
    let raw = bot.asked.iter().map(|bits| (*bits as i32).into()).collect();
    let results = bot.compute_actions.call_raw(&mut bot.store, raw)?;
    Ok(results.first().and_then(|value| value.i32()).map(|word| word as u32))
}

/// `wasmer_middlewares::metering::get_remaining_points`: reads what is
/// left of the bot's budget, and leaves it and the record as they are.
#[verifier::external_body]
fn points_left(bot: &mut BotModule) -> (points: MeteringPoints)
    ensures
        points == spec_points_left(old(bot).store, old(bot).instance),
        points == spec_points_left(final(bot).store, final(bot).instance),
        spec_kept(*old(bot), *final(bot)),
        spec_recorded(final(bot).store, final(bot).printed) == spec_recorded(
            old(bot).store,
            old(bot).printed,
        ),
{
    match get_remaining_points(&mut bot.store, &bot.instance) {
        wasmer_middlewares::metering::MeteringPoints::Remaining(left) => {
            MeteringPoints::Remaining(left)
        },
        wasmer_middlewares::metering::MeteringPoints::Exhausted => MeteringPoints::Exhausted,
    }
}

/// `wasmer_middlewares::metering::set_remaining_points`, with the
/// budget that the bot keeps: afterwards the bot has that many points
/// left and is not exhausted.  The record is left as it is.
#[verifier::external_body]
fn refill(bot: &mut BotModule)
    ensures
        spec_points_left(final(bot).store, final(bot).instance) == MeteringPoints::Remaining(
            old(bot).granted,
        ),
        spec_kept(*old(bot), *final(bot)),
        spec_recorded(final(bot).store, final(bot).printed) == spec_recorded(
            old(bot).store,
            old(bot).printed,
        ),
{
    set_remaining_points(&mut bot.store, &bot.instance, bot.granted)
}

/// `RuntimeError::message` and `RuntimeError::trace`: what the sandbox
/// says went wrong, followed by one line for each frame of the guest's
/// call stack, innermost first, with the module and the function of
/// the frame.
#[verifier::external_body]
fn on_runtime_error(error: &RuntimeError) -> (message: String) {
    let frames: Vec<String> = error
        .trace()
        .iter()
        .map(|frame| format!("\n  {:?}::{:?}", frame.module_name(), frame.function_name()))
        .collect();
    format!("{}{}", error.message(), frames.concat())
}

/// `FunctionEnv::as_ref`: a copy of the numbers that the record
/// holds, oldest first.
#[verifier::external_body]
fn recorded(store: &Store, record: &FunctionEnv<Vec<u32>>) -> (numbers: Vec<u32>)
    ensures
        numbers@ == spec_recorded(*store, *record),
{
    record.as_ref(store).clone()
}

/// The host bridge's one function: appends the number that the guest
/// printed to the record.
pub fn print_u32(record: &mut Vec<u32>, num: u32)
    ensures
        final(record)@ == old(record)@.push(num),
{
    record.push(num);
}

/// Whether `kinds` is `count` times `kind`.
fn all_of_kind(kinds: &Vec<ValueKind>, kind: ValueKind, count: usize) -> (same: bool)
    ensures
        same == (kinds@ == Seq::new(count as nat, |i: int| kind)),
{
    if kinds.len() != count {
        return false;
    }
    let mut i: usize = 0;
    while i < kinds.len()
        invariant
            i <= kinds.len(),
            kinds.len() == count,
            forall|k: int| 0 <= k < i ==> kinds[k] == kind,
        decreases kinds.len() - i,
    {
        if kinds[i] != kind {
            proof {
                assert(Seq::new(count as nat, |i: int| kind)[i as int] == kind);
            }
            return false;
        }
        i += 1;
    }
    proof {
        assert(kinds@ =~= Seq::new(count as nat, |i: int| kind));
    }
    true
}

impl Signature {
    /// Whether this is the signature of `init`.
    pub fn is_init(&self) -> (ok: bool)
        ensures
            ok == spec_is_init_signature(self.params@, self.results@),
    {
        let params_ok = all_of_kind(&self.params, ValueKind::I32, 1);
        let results_ok = self.results.len() == 0;
        proof {
            assert(Seq::new(1, |i: int| ValueKind::I32) =~= spec_init_params());
            assert(results_ok == (self.results@ =~= Seq::<ValueKind>::empty()));
        }
        params_ok && results_ok
    }

    /// Whether this is the signature of `compute_actions`.
    pub fn is_compute_actions(&self) -> (ok: bool)
        ensures
            ok == spec_is_compute_signature(self.params@, self.results@),
    {
        let params_ok = all_of_kind(&self.params, ValueKind::F32, 9);
        let results_ok = all_of_kind(&self.results, ValueKind::I32, 1);
        proof {
            assert(Seq::new(1, |i: int| ValueKind::I32) =~= seq![ValueKind::I32]);
        }
        params_ok && results_ok
    }
}

/// Checks one entry point: it must be exported, and with the expected
/// signature.
pub fn check_export(found: bool, matches: bool) -> (checked: Result<(), EngineError>)
    ensures
        checked == spec_check_export(found, matches),
{
    if !found {
        Err(EngineError::MissingExport)
    } else if !matches {
        Err(EngineError::SignatureMismatch)
    } else {
        Ok(())
    }
}

/// Lines up the nine arguments of `compute_actions`.
pub fn arguments(own: Position, ball: Position, enemy: Position) -> (list: Vec<u32>)
    ensures
        list@ == spec_arguments(own, ball, enemy),
{
    let mut list: Vec<u32> = Vec::new();
    list.push(own.x);
    list.push(own.y);
    list.push(own.z);
    list.push(ball.x);
    list.push(ball.y);
    list.push(ball.z);
    list.push(enemy.x);
    list.push(enemy.y);
    list.push(enemy.z);
    proof {
        assert(list@ =~= spec_arguments(own, ball, enemy));
    }
    list
}

/// Whether an import is the one thing that the host bridge offers.
pub fn is_bridge_import(import: &Import) -> (offered: bool)
    ensures
        offered == spec_is_bridge_import(spec_import_view(*import)),
{
    let namespace = BRIDGE_NAMESPACE.to_owned();
    let name = BRIDGE_FUNCTION.to_owned();
    let function = match &import.function {
        Some(signature) => signature.is_init(),
        None => false,
    };
    import.namespace == namespace && import.name == name && function
}

/// Whether the host bridge offers everything in a run of imports.
pub fn within_bridge(imports: &Vec<Import>) -> (offered: bool)
    ensures
        offered == spec_within_bridge(spec_imports_view(imports@)),
{
    let mut i: usize = 0;
    while i < imports.len()
        invariant
            i <= imports.len(),
            forall|k: int|
                0 <= k < i ==> spec_is_bridge_import(
                    #[trigger] spec_imports_view(imports@)[k],
                ),
        decreases imports.len() - i,
    {
        if !is_bridge_import(&imports[i]) {
            proof {
                assert(!spec_is_bridge_import(spec_imports_view(imports@)[i as int]));
            }
            return false;
        }
        i += 1;
    }
    true
}

/// Decides what loading comes to from what the sandbox said: whether
/// the bytes compile, whether the module links, and what it exports as
/// `init` and as `compute_actions`.
pub fn load_outcome(
    compiles: bool,
    links: bool,
    init: &Option<Signature>,
    compute_actions: &Option<Signature>,
) -> (outcome: Result<(), EngineError>)
    ensures
        outcome == spec_load_outcome(
            compiles,
            links,
            spec_signature_view(*init),
            spec_signature_view(*compute_actions),
        ),
{
    if !compiles {
        return Err(EngineError::CompileError);
    }
    if !links {
        return Err(EngineError::InstantiationError);
    }
    match init {
        None => {
            return check_export(false, false);
        },
        Some(signature) => {
            if !signature.is_init() {
                return check_export(true, false);
            }
        },
    }
    match compute_actions {
        None => check_export(false, false),
        Some(signature) => check_export(true, signature.is_compute_actions()),
    }
}

/// Loads guest bytes for the bot that is embodied by `handle`:
/// compiles them in a fresh metered sandbox, links the module against
/// the host bridge, which offers `env.print_u32` and nothing else, and
/// checks the two entry points.
///
/// Whether the bytes compile, what they ask for and what they export
/// is a matter of the bytes alone.  A module that asks for more than
/// the bridge offers is not linked; whether one that asks for no more
/// is linked is for the sandbox to say on the day.
///
/// The outcome is what [`load_outcome`] makes of these.  Bytes that do
/// not compile give `CompileError`, and they alone.  Bytes that compile
/// but ask for more than the bridge offers give `InstantiationError`.
/// A missing or mistyped entry point is only reported of bytes that
/// have one.  A bot is only made of bytes that are a guest in all
/// these respects, and such bytes give a bot unless the sandbox fails
/// to link them.  The bot keeps the handle it was given.
pub fn create_bot_module(wasm_bytes: &[u8], handle: RigidBodyHandle) -> (loaded: Result<
    BotModule,
    EngineError,
>)
    ensures
        exists|links: bool| #[trigger] spec_load(wasm_bytes@, links) == spec_loaded_view(loaded),
        loaded.is_ok() ==> spec_is_guest(wasm_bytes@),
        (loaded matches Err(error) && error == EngineError::CompileError) <==> !spec_compiles(
            wasm_bytes@,
        ),
        spec_compiles(wasm_bytes@) && !spec_within_bridge(spec_imports(wasm_bytes@)) ==> (
        loaded matches Err(error) && error == EngineError::InstantiationError),
        (loaded matches Err(error) && error == EngineError::MissingExport) ==> spec_export(
            wasm_bytes@,
            "init"@,
        ).is_none() || spec_export(wasm_bytes@, "compute_actions"@).is_none(),
        (loaded matches Err(error) && error == EngineError::SignatureMismatch) ==> !spec_is_guest(
            wasm_bytes@,
        ),
        spec_is_guest(wasm_bytes@) ==> loaded.is_ok() || (loaded matches Err(error) && error
            == EngineError::InstantiationError),
        loaded matches Ok(bot) ==> bot.wf() && bot.source() == wasm_bytes@ && bot.body()
            == handle && bot.fault_text().is_none() && bot.answered().is_none(),
{
    let mut store = metered_store(INITIAL_POINTS);
    let module = match compile(&store, wasm_bytes) {
        Ok(module) => module,
        Err(_) => {
            let outcome = load_outcome(false, false, &None, &None);
            proof {
                assert(spec_load(wasm_bytes@, false) == outcome);
            }
            return match outcome {
                Ok(()) => Err(EngineError::CompileError),
                Err(error) => Err(error),
            };
        },
    };
    let imports = imports_of(&module);
    if !within_bridge(&imports) {
        let outcome = load_outcome(true, false, &None, &None);
        proof {
            assert(spec_load(wasm_bytes@, false) == outcome);
        }
        return match outcome {
            Ok(()) => Err(EngineError::InstantiationError),
            Err(error) => Err(error),
        };
    }
    let printed = new_record(&mut store);
    let instance = match instantiate(
        &mut store,
        &module,
        &printed,
        BRIDGE_NAMESPACE,
        BRIDGE_FUNCTION,
    ) {
        Ok(instance) => instance,
        Err(_) => {
            let outcome = load_outcome(true, false, &None, &None);
            proof {
                assert(spec_load(wasm_bytes@, false) == outcome);
            }
            return match outcome {
                Ok(()) => Err(EngineError::InstantiationError),
                Err(error) => Err(error),
            };
        },
    };
    let init_signature = export_signature(&store, &instance, "init");
    let compute_signature = export_signature(&store, &instance, "compute_actions");
    let outcome = load_outcome(true, true, &init_signature, &compute_signature);
    proof {
        assert(spec_load(wasm_bytes@, true) == outcome);
    }
    match outcome {
        Ok(()) => {
            let init = exported_function(&instance, "init").unwrap();
            let compute_actions = exported_function(&instance, "compute_actions").unwrap();
            Ok(
                BotModule {
                    instance,
                    store,
                    printed,
                    init,
                    compute_actions,
                    handle,
                    fault: None,
                    granted: INITIAL_POINTS,
                    seed: 0,
                    asked: Vec::new(),
                    answered: None,
                },
            )
        },
        Err(error) => Err(error),
    }
}

impl BotModule {
    /// The body that embodies this bot.
    pub closed spec fn body(&self) -> RigidBodyHandle {
        self.handle
    }

    /// The body that embodies this bot.
    pub fn handle(&self) -> (handle: RigidBodyHandle)
        ensures
            handle == self.body(),
    {
        self.handle
    }

    /// What is left of the bot's budget.
    pub closed spec fn budget(&self) -> MeteringPoints {
        spec_points_left(self.store, self.instance)
    }

    /// The numbers the guest has printed so far, oldest first.
    pub closed spec fn record(&self) -> Seq<u32> {
        spec_recorded(self.store, self.printed)
    }

    /// What the sandbox said when a call of this bot was last aborted
    /// with budget left, if that has happened.
    pub closed spec fn fault_text(&self) -> Option<String> {
        self.fault
    }

    /// The bytes that this bot was loaded from.
    pub closed spec fn source(&self) -> Seq<u8> {
        spec_instance_source(self.instance)
    }

    /// What holds of every bot: the bytes it was loaded from compile,
    /// ask for no more than the host bridge offers, and export both
    /// entry points with the signatures that the guest interface asks
    /// for.
    pub closed spec fn wf(&self) -> bool {
        spec_is_guest(self.source())
    }

    /// The budget that was last set.
    pub closed spec fn granted(&self) -> u64 {
        self.granted
    }

    /// The seed that `init` was last called with.
    pub closed spec fn seed(&self) -> u32 {
        self.seed
    }

    /// The arguments that `compute_actions` was last called with.
    pub closed spec fn asked(&self) -> Seq<u32> {
        self.asked@
    }

    /// The action word that the last `compute_actions` call came to, if
    /// one has come to a word.
    pub closed spec fn answered(&self) -> Option<u32> {
        self.answered
    }

    /// Sets the budget for the next call.
    pub fn set_remaining_points(&mut self, points: u64)
        ensures
            final(self).body() == old(self).body(),
            final(self).budget() == MeteringPoints::Remaining(points),
            final(self).source() == old(self).source(),
            final(self).wf() == old(self).wf(),
            final(self).granted() == points,
            final(self).seed() == old(self).seed(),
            final(self).asked() == old(self).asked(),
            final(self).answered() == old(self).answered(),
            final(self).record() == old(self).record(),
            final(self).fault_text() == old(self).fault_text(),
    {
        self.granted = points;
        refill(self);
    }

    /// What is left of the budget.
    pub fn remaining_points(&mut self) -> (points: MeteringPoints)
        ensures
            final(self).body() == old(self).body(),
            points == old(self).budget(),
            final(self).budget() == old(self).budget(),
            final(self).source() == old(self).source(),
            final(self).wf() == old(self).wf(),
            final(self).granted() == old(self).granted(),
            final(self).seed() == old(self).seed(),
            final(self).asked() == old(self).asked(),
            final(self).answered() == old(self).answered(),
            final(self).record() == old(self).record(),
            final(self).fault_text() == old(self).fault_text(),
    {
        points_left(self)
    }

    /// The numbers the guest has printed so far, oldest first.
    pub fn printed(&self) -> (numbers: Vec<u32>)
        ensures
            numbers@ == self.record(),
    {
        recorded(&self.store, &self.printed)
    }

    /// Whether a call of this bot has been aborted with budget left.
    pub open spec fn faulted(&self) -> bool {
        self.fault_text().is_some()
    }

    /// What the sandbox said when a call of this bot was last aborted
    /// with budget left; `None` if that has not happened.
    pub fn fault(&self) -> (message: Option<String>)
        ensures
            message == self.fault_text(),
    {
        match &self.fault {
            Some(text) => Some(text.clone()),
            None => None,
        }
    }

    /// Calls the guest's `init` with `seed`, under the budget that was
    /// set.
    ///
    /// The outcome is what the call settles to under the budget it
    /// leaves: a call that was cut short because the budget ran out
    /// counts as done; one that was aborted with points left is the
    /// guest's fault.
    pub fn init(&mut self, seed: u32) -> (done: Result<(), EngineError>)
        requires
            old(self).wf(),
        ensures
            final(self).wf(),
            final(self).source() == old(self).source(),
            final(self).body() == old(self).body(),
            exists|returned: Option<u32>|
                spec_settle_init(#[trigger] spec_settle_call(returned, final(self).budget()))
                    == done,
            done matches Err(error) ==> error == EngineError::GuestTrap && !spec_is_spent(
                final(self).budget(),
            ),
            old(self).record().is_prefix_of(final(self).record()),
            done.is_err() ==> final(self).faulted(),
            done.is_ok() ==> final(self).fault_text() == old(self).fault_text(),
            final(self).seed() == seed,
            final(self).granted() == old(self).granted(),
            final(self).asked() == old(self).asked(),
            final(self).answered() == old(self).answered(),
    {
        self.seed = seed;
        let mut message: Option<String> = None;
        let returned: Option<u32> = match call_init(self) {
            Ok(()) => Some(0),
            Err(error) => {
                message = Some(on_runtime_error(&error));
                None
            },
        };
        let points = points_left(self);
        let done = match settle_call(returned, points) {
            Ok(_) => Ok(()),
            Err(error) => {
                self.fault = message;
                Err(error)
            },
        };
        proof {
            assert(spec_settle_init(spec_settle_call(returned, self.budget())) == done);
        }
        done
    }

    /// Calls the guest's `compute_actions` with the three positions,
    /// under the budget that was set, and returns its action word.
    ///
    /// The outcome is what the call settles to under the budget it
    /// leaves: a call that was cut short because the budget ran out
    /// yields the neutral word; one that was aborted with points left
    /// is the guest's fault.
    pub fn compute_actions(&mut self, own: Position, ball: Position, enemy: Position) -> (action:
        Result<u32, EngineError>)
        requires
            old(self).wf(),
        ensures
            final(self).wf(),
            final(self).source() == old(self).source(),
            final(self).body() == old(self).body(),
            exists|returned: Option<u32>|
                #[trigger] spec_settle_action(returned, final(self).budget()) == action,
            action matches Err(error) ==> error == EngineError::GuestTrap && !spec_is_spent(
                final(self).budget(),
            ),
            spec_is_spent(final(self).budget()) ==> action.is_ok(),
            old(self).record().is_prefix_of(final(self).record()),
            action.is_err() ==> final(self).faulted(),
            action.is_ok() ==> final(self).fault_text() == old(self).fault_text(),
            final(self).asked() == spec_arguments(own, ball, enemy),
            final(self).granted() == old(self).granted(),
            final(self).seed() == old(self).seed(),
            action matches Ok(word) ==> final(self).answered() == Some(word),
            action.is_err() ==> final(self).answered() == old(self).answered(),
    {
        self.asked = arguments(own, ball, enemy);
        let mut message: Option<String> = None;
        let returned: Option<u32> = match call_compute_actions(self) {
            Ok(Some(word)) => Some(word),
            Ok(None) => {
                message = Some("the call returned no value".to_string());
                None
            },
            Err(error) => {
                message = Some(on_runtime_error(&error));
                None
            },
        };
        let points = points_left(self);
        let action = match settle_action(returned, points) {
            Ok(word) => {
                self.answered = Some(word);
                Ok(word)
            },
            Err(error) => {
                self.fault = message;
                Err(error)
            },
        };
        proof {
            assert(spec_settle_action(returned, self.budget()) == action);
        }
        action
    }
}

} // verus!
