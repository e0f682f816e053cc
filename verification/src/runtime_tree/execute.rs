//! Running nested blocks of instructions.
//!
//! Running a block gives a number: 0 when it ran to its end, or reached an `end`
//! or `else`; the depth of a branch that leaves it otherwise, which each
//! enclosing `block` lowers by one until it reaches 0; -1 for `return`. A `loop`
//! runs its block again while that gives 0. The result of an `if`'s block is not
//! used. Loops are bounded by fuel: a loop may run at most `fuel` iterations, and
//! the loops inside its n-th iteration at most `fuel - n`.
use crate::parse_tree::functions::FuncSignature;
use crate::parse_tree::language_types::Block;
use crate::parse_tree::language_types::BranchTable;
use crate::parse_tree::language_types::Instruction;
use crate::parse_tree::language_types::Operation;
use crate::parse_tree::language_types::ValueType;
use crate::parse_tree::tables::Table;
use crate::tree::exports::export_map;
use crate::tree::exports::exported_function;
use crate::tree::exports::ExportEntry;
use crate::parse_tree::types::TypeDefinition;
use crate::runtime::functions::check_argument_types;
use crate::runtime::functions::spec_check_arguments;
use crate::runtime_tree::language_types::type_of;
use crate::runtime_tree::host::call_host;
use crate::runtime_tree::host::host_callable;
use crate::runtime_tree::host::host_deterministic;
use crate::runtime_tree::host::host_results;
use crate::runtime_tree::host::lemma_no_host;
use crate::runtime_tree::host::no_host;
use crate::runtime_tree::Func;
use crate::runtime_tree::ModuleInstanceData;
use crate::runtime_tree::language_types::FrameView;
use crate::runtime_tree::language_types::StackFrame;
use crate::runtime_tree::language_types::Trap;
use crate::runtime_tree::language_types::ValueTypeProvider;
use crate::runtime_tree::step::spec_step;
use crate::runtime_tree::step::step;
use vstd::prelude::*;

verus! {

/// The position of the first `else` among `ops` from `k` on.
pub open spec fn find_else(ops: Seq<Instruction>, k: int) -> Option<int>
    decreases ops.len() - k,
{
    if k < 0 || k >= ops.len() {
        None
    } else if ops[k] == Instruction::Op(Operation::Else) {
        Some(k)
    } else {
        find_else(ops, k + 1)
    }
}

/// Leaving a block that gave `x`: one level less, as an `i32`.
pub open spec fn spec_leave(x: i32, f: FrameView) -> Result<(i32, FrameView), Trap> {
    if x == i32::MIN {
        Err(Trap::IntegerOverflow)
    } else {
        Ok(((x - 1) as i32, f))
    }
}

/// `br_table` with the popped index: the target at the index less one, or the
/// default where the index is past the targets.
pub open spec fn spec_branch_table(bt: BranchTable, index: i32, f: FrameView) -> Result<(i32, FrameView), Trap> {
    if (index as usize) < bt.targets@.len() {
        let t = bt.targets@[(index as usize) as int];
        if t == 0 {
            Err(Trap::IntegerOverflow)
        } else {
            Ok(((t - 1) as u32 as i32, f))
        }
    } else {
        Ok((bt.default as i32, f))
    }
}

/// The arguments of a call, one popped per parameter, the first parameter
/// taking the top of the stack, and what is left of the stack; each argument
/// must have its parameter's type.
pub open spec fn spec_pop_args(params: Seq<ValueType>, k: int, stack: Seq<ValueTypeProvider>, args: Seq<ValueTypeProvider>) -> Result<
    (Seq<ValueTypeProvider>, Seq<ValueTypeProvider>),
    Trap,
>
    decreases params.len() - k,
{
    if k < 0 || k >= params.len() {
        Ok((args, stack))
    } else if stack.len() == 0 {
        Err(Trap::StackEmpty)
    } else if type_of(stack.last()) != params[k] {
        Err(Trap::TypeMismatch)
    } else {
        spec_pop_args(params, k + 1, stack.drop_last(), args.push(stack.last()))
    }
}

/// The results of a call after those in `acc`: one value popped from the
/// callee's stack per result type, kept where it has that type.
pub open spec fn spec_collect(result_types: Seq<ValueType>, k: int, stack: Seq<ValueTypeProvider>, acc: Seq<ValueTypeProvider>) -> Seq<
    ValueTypeProvider,
>
    decreases result_types.len() - k,
{
    if k < 0 || k >= result_types.len() {
        acc
    } else if stack.len() == 0 {
        spec_collect(result_types, k + 1, stack, acc)
    } else if type_of(stack.last()) == result_types[k] {
        spec_collect(result_types, k + 1, stack.drop_last(), acc.push(stack.last()))
    } else {
        spec_collect(result_types, k + 1, stack.drop_last(), acc)
    }
}

/// The zero value of a type.
pub open spec fn zero_of(t: ValueType) -> ValueTypeProvider {
    match t {
        ValueType::I32 => ValueTypeProvider::I32(0),
        ValueType::I64 => ValueTypeProvider::I64(0),
        ValueType::F32 => ValueTypeProvider::F32(0),
        ValueType::F64 => ValueTypeProvider::F64(0),
    }
}

/// A call of a function with signature `sig`, own locals of types `locals` and
/// instructions `body`, with `args`, from the frame `f`: the arguments must fit
/// the parameters; the body runs on a frame with the arguments and zero values
/// for the function's own locals as locals and an empty stack; gives the
/// function's results and the frame it left.
pub open spec fn spec_invoke<H: Fn(usize, Vec<ValueTypeProvider>) -> Option<Vec<ValueTypeProvider>>>(host: H, 
    sig: FuncSignature,
    locals: Seq<ValueType>,
    body: Block,
    args: Seq<ValueTypeProvider>,
    f: FrameView,
    fuel: nat,
) -> Result<(Seq<ValueTypeProvider>, FrameView), Trap>
    decreases fuel, body, body.operations@.len() + 1,
{
    if spec_check_arguments(sig.parameters@, args) is Err {
        Err(Trap::WrongArguments)
    } else {
        let callee = FrameView { locals: args + locals.map_values(|t: ValueType| zero_of(t)), stack: Seq::empty(), ..f };
        match spec_run(host, body, 0, callee, fuel) {
            Err(e) => Err(e),
            Ok((_, g)) => Ok((spec_collect(sig.returns@, 0, g.stack, Seq::empty()), g)),
        }
    }
}

/// The caller's frame after a call that left the frame `g` with `results`: the
/// caller's locals, its stack without the arguments and with the results pushed.
pub open spec fn after_call(f: FrameView, rest: Seq<ValueTypeProvider>, results: Seq<ValueTypeProvider>, g: FrameView) -> FrameView {
    FrameView { locals: f.locals, stack: rest + results, ..g }
}

/// The function that entry `index` of table 0 names, for an indirect call.
pub open spec fn table_function(tables: Seq<Table>, index: i32) -> Result<usize, Trap> {
    if tables.len() == 0 {
        Err(Trap::NoTable)
    } else {
        match tables[0] {
            Table::AnyFunc { limits, values } => if (index as usize) < values@.len() {
                Ok(values@[(index as usize) as int])
            } else {
                Err(Trap::NoSuchFunction)
            },
        }
    }
}

/// Running the instructions of `b` from position `i` on.
pub open spec fn spec_run<H: Fn(usize, Vec<ValueTypeProvider>) -> Option<Vec<ValueTypeProvider>>>(host: H, b: Block, i: int, f: FrameView, fuel: nat) -> Result<(i32, FrameView), Trap>
    decreases fuel, b, b.operations@.len() - i,
{
    if i < 0 || i >= b.operations@.len() {
        Ok((0, f))
    } else {
        match b.operations@[i] {
            Instruction::Block(inner) => match spec_run(host, inner, 0, f, fuel) {
                Err(e) => Err(e),
                Ok((x, f2)) => if x != 0 {
                    spec_leave(x, f2)
                } else {
                    spec_run(host, b, i + 1, f2, fuel)
                },
            },
            Instruction::Loop(inner) => match spec_loop(host, inner, f, fuel) {
                Err(e) => Err(e),
                Ok((x, f2)) => if x == i32::MIN {
                    Err(Trap::IntegerOverflow)
                } else if x - 1 != 0 {
                    Ok(((x - 1) as i32, f2))
                } else {
                    spec_run(host, b, i + 1, f2, fuel)
                },
            },
            Instruction::If(inner) => if f.stack.len() == 0 {
                Err(Trap::StackEmpty)
            } else {
                match f.stack.last() {
                    ValueTypeProvider::I32(c) => {
                        let f1 = FrameView { stack: f.stack.drop_last(), ..f };
                        let branch = if c != 0 {
                            spec_run(host, inner, 0, f1, fuel)
                        } else {
                            match find_else(inner.operations@, 0) {
                                Some(k) => spec_run(host, inner, k + 1, f1, fuel),
                                None => Ok((0, f1)),
                            }
                        };
                        match branch {
                            Err(e) => Err(e),
                            Ok((_, f2)) => spec_run(host, b, i + 1, f2, fuel),
                        }
                    },
                    _ => Err(Trap::TypeMismatch),
                }
            },
            Instruction::Op(op) => match op {
                Operation::Else => Ok((0, f)),
                Operation::End => Ok((0, f)),
                Operation::Branch(n) => Ok((n as i32, f)),
                Operation::Return => Ok((-1i32, f)),
                Operation::BranchIf(n) => if f.stack.len() == 0 {
                    Err(Trap::StackEmpty)
                } else {
                    match f.stack.last() {
                        ValueTypeProvider::I32(c) => {
                            let f1 = FrameView { stack: f.stack.drop_last(), ..f };
                            if c != 0 {
                                Ok((n as i32, f1))
                            } else {
                                spec_run(host, b, i + 1, f1, fuel)
                            }
                        },
                        _ => Err(Trap::TypeMismatch),
                    }
                },
                Operation::BranchTable(bt) => if f.stack.len() == 0 {
                    spec_run(host, b, i + 1, f, fuel)
                } else {
                    let f1 = FrameView { stack: f.stack.drop_last(), ..f };
                    match f.stack.last() {
                        ValueTypeProvider::I32(index) => spec_branch_table(bt, index, f1),
                        _ => spec_run(host, b, i + 1, f1, fuel),
                    }
                },
                Operation::Call(idx) => if idx >= f.functions.len() {
                    Err(Trap::NoSuchFunction)
                } else {
                    let func = f.functions[idx as int];
                    match spec_pop_args(func.signature.parameters@, 0, f.stack, Seq::empty()) {
                        Err(e) => Err(e),
                        Ok((args, rest)) => if fuel == 0 {
                            Err(Trap::OutOfFuel)
                        } else {
                            match func.body {
                                None => match host_results(host, idx, args) {
                                    None => Err(Trap::HostFunction),
                                    Some(results) => spec_run(host, b, i + 1, after_call(f, rest, results, f), fuel),
                                },
                                Some(body) => match spec_invoke(host, func.signature, func.locals@, body, args, f, (fuel - 1) as nat) {
                                    Err(e) => Err(e),
                                    Ok((results, g)) => spec_run(host, b, i + 1, after_call(f, rest, results, g), fuel),
                                },
                            }
                        },
                    }
                },
                Operation::CallIndirect(tidx, _) => if tidx >= f.types.len() {
                    Err(Trap::NoSuchType)
                } else {
                    match f.types[tidx as int] {
                        TypeDefinition::Func(sig) => match spec_pop_args(sig.parameters@, 0, f.stack, Seq::empty()) {
                            Err(e) => Err(e),
                            Ok((args, rest)) => if rest.len() == 0 {
                                Err(Trap::StackEmpty)
                            } else {
                                match rest.last() {
                                    ValueTypeProvider::I32(index) => match table_function(f.tables, index) {
                                        Err(e) => Err(e),
                                        Ok(fidx) => if fidx >= f.functions.len() {
                                            Err(Trap::NoSuchFunction)
                                        } else if fuel == 0 {
                                            Err(Trap::OutOfFuel)
                                        } else {
                                            let func = f.functions[fidx as int];
                                            match func.body {
                                                None => match host_results(host, fidx, args) {
                                                    None => Err(Trap::HostFunction),
                                                    Some(results) => spec_run(
                                                        host,
                                                        b,
                                                        i + 1,
                                                        after_call(f, rest.drop_last(), results, f),
                                                        fuel,
                                                    ),
                                                },
                                                Some(body) => match spec_invoke(host, 
                                                    func.signature,
                                                    func.locals@,
                                                    body,
                                                    args,
                                                    f,
                                                    (fuel - 1) as nat,
                                                ) {
                                                    Err(e) => Err(e),
                                                    Ok((results, g)) => spec_run(host, 
                                                        b,
                                                        i + 1,
                                                        after_call(f, rest.drop_last(), results, g),
                                                        fuel,
                                                    ),
                                                },
                                            }
                                        },
                                    },
                                    _ => Err(Trap::TypeMismatch),
                                }
                            },
                        },
                    }
                },
                _ => match spec_step(op, f) {
                    Err(e) => Err(e),
                    Ok(f2) => spec_run(host, b, i + 1, f2, fuel),
                },
            },
        }
    }
}

/// Running a loop's block until it gives a number other than 0.
pub open spec fn spec_loop<H: Fn(usize, Vec<ValueTypeProvider>) -> Option<Vec<ValueTypeProvider>>>(host: H, inner: Block, f: FrameView, fuel: nat) -> Result<(i32, FrameView), Trap>
    decreases fuel, inner, 0int,
{
    if fuel == 0 {
        Err(Trap::OutOfFuel)
    } else {
        match spec_run(host, inner, 0, f, (fuel - 1) as nat) {
            Err(e) => Err(e),
            Ok((x, f2)) => if x == 0 {
                spec_loop(host, inner, f2, (fuel - 1) as nat)
            } else {
                Ok((x, f2))
            },
        }
    }
}

/// A call does not depend on the caller's locals and stack.
pub proof fn lemma_invoke_frame<H: Fn(usize, Vec<ValueTypeProvider>) -> Option<Vec<ValueTypeProvider>>>(host: H, 
    sig: FuncSignature,
    locals: Seq<ValueType>,
    body: Block,
    args: Seq<ValueTypeProvider>,
    f1: FrameView,
    f2: FrameView,
    fuel: nat,
)
    requires
        f1.types == f2.types,
        f1.globals == f2.globals,
        f1.memories == f2.memories,
        f1.functions == f2.functions,
        f1.tables == f2.tables,
    ensures
        spec_invoke(host, sig, locals, body, args, f1, fuel) == spec_invoke(host, sig, locals, body, args, f2, fuel),
{
    let z = locals.map_values(|t: ValueType| zero_of(t));
    assert(FrameView { locals: args + z, stack: Seq::empty(), ..f1 } == FrameView {
        locals: args + z,
        stack: Seq::empty(),
        ..f2
    });
}

/// More fuel changes nothing for a run that did not run out of it: it gives the
/// same result with any larger amount.
pub proof fn lemma_run_fuel_monotone<H: Fn(usize, Vec<ValueTypeProvider>) -> Option<Vec<ValueTypeProvider>>>(host: H, b: Block, i: int, f: FrameView, fuel: nat, more: nat)
    requires
        fuel <= more,
        spec_run(host, b, i, f, fuel) != Err::<(i32, FrameView), Trap>(Trap::OutOfFuel),
    ensures
        spec_run(host, b, i, f, more) == spec_run(host, b, i, f, fuel),
    decreases fuel, b, b.operations@.len() - i,
{
    if 0 <= i < b.operations@.len() {
        match b.operations@[i] {
            Instruction::Block(inner) => {
                lemma_run_fuel_monotone(host, inner, 0, f, fuel, more);
                if let Ok((x, f2)) = spec_run(host, inner, 0, f, fuel) {
                    if x == 0 {
                        lemma_run_fuel_monotone(host, b, i + 1, f2, fuel, more);
                    }
                }
            },
            Instruction::Loop(inner) => {
                lemma_loop_fuel_monotone(host, inner, f, fuel, more);
                if let Ok((x, f2)) = spec_loop(host, inner, f, fuel) {
                    if x != i32::MIN && x - 1 == 0 {
                        lemma_run_fuel_monotone(host, b, i + 1, f2, fuel, more);
                    }
                }
            },
            Instruction::If(inner) => {
                if f.stack.len() > 0 {
                    if let ValueTypeProvider::I32(c) = f.stack.last() {
                        let f1 = FrameView { stack: f.stack.drop_last(), ..f };
                        let branch = if c != 0 {
                            lemma_run_fuel_monotone(host, inner, 0, f1, fuel, more);
                            spec_run(host, inner, 0, f1, fuel)
                        } else {
                            match find_else(inner.operations@, 0) {
                                Some(k) => {
                                    lemma_run_fuel_monotone(host, inner, k + 1, f1, fuel, more);
                                    spec_run(host, inner, k + 1, f1, fuel)
                                },
                                None => Ok((0, f1)),
                            }
                        };
                        if let Ok((_, f2)) = branch {
                            lemma_run_fuel_monotone(host, b, i + 1, f2, fuel, more);
                        }
                    }
                }
            },
            Instruction::Op(op) => match op {
                Operation::Else => {},
                Operation::End => {},
                Operation::Branch(_) => {},
                Operation::Return => {},
                Operation::BranchIf(_) => {
                    if f.stack.len() > 0 {
                        if let ValueTypeProvider::I32(c) = f.stack.last() {
                            if c == 0 {
                                let f1 = FrameView { stack: f.stack.drop_last(), ..f };
                                lemma_run_fuel_monotone(host, b, i + 1, f1, fuel, more);
                            }
                        }
                    }
                },
                Operation::BranchTable(_) => {
                    if f.stack.len() == 0 {
                        lemma_run_fuel_monotone(host, b, i + 1, f, fuel, more);
                    } else if !(f.stack.last() is I32) {
                        let f1 = FrameView { stack: f.stack.drop_last(), ..f };
                        lemma_run_fuel_monotone(host, b, i + 1, f1, fuel, more);
                    }
                },
                Operation::Call(idx) => {
                    if idx < f.functions.len() {
                        let func = f.functions[idx as int];
                        if let Ok((args, rest)) = spec_pop_args(func.signature.parameters@, 0, f.stack, Seq::empty()) {
                            if fuel > 0 {
                                if func.body is None {
                                    if let Some(results) = host_results(host, idx, args) {
                                        lemma_run_fuel_monotone(host, b, i + 1, after_call(f, rest, results, f), fuel, more);
                                    }
                                }
                                if let Some(body) = func.body {
                                    lemma_invoke_fuel_monotone(host, 
                                        func.signature,
                                        func.locals@,
                                        body,
                                        args,
                                        f,
                                        (fuel - 1) as nat,
                                        (more - 1) as nat,
                                    );
                                    if let Ok((results, g)) = spec_invoke(host, 
                                        func.signature,
                                        func.locals@,
                                        body,
                                        args,
                                        f,
                                        (fuel - 1) as nat,
                                    ) {
                                        lemma_run_fuel_monotone(host, b, i + 1, after_call(f, rest, results, g), fuel, more);
                                    }
                                }
                            }
                        }
                    }
                },
                Operation::CallIndirect(tidx, _) => {
                    if tidx < f.types.len() {
                        let TypeDefinition::Func(sig) = f.types[tidx as int];
                        if let Ok((args, rest)) = spec_pop_args(sig.parameters@, 0, f.stack, Seq::empty()) {
                            if rest.len() > 0 {
                                if let ValueTypeProvider::I32(index) = rest.last() {
                                    if let Ok(fidx) = table_function(f.tables, index) {
                                        if fidx < f.functions.len() && fuel > 0 {
                                            let func = f.functions[fidx as int];
                                            if func.body is None {
                                                if let Some(results) = host_results(host, fidx, args) {
                                                    lemma_run_fuel_monotone(
                                                        host,
                                                        b,
                                                        i + 1,
                                                        after_call(f, rest.drop_last(), results, f),
                                                        fuel,
                                                        more,
                                                    );
                                                }
                                            }
                                            if let Some(body) = func.body {
                                                lemma_invoke_fuel_monotone(host, 
                                                    func.signature,
                                                    func.locals@,
                                                    body,
                                                    args,
                                                    f,
                                                    (fuel - 1) as nat,
                                                    (more - 1) as nat,
                                                );
                                                if let Ok((results, g)) = spec_invoke(host, 
                                                    func.signature,
                                                    func.locals@,
                                                    body,
                                                    args,
                                                    f,
                                                    (fuel - 1) as nat,
                                                ) {
                                                    lemma_run_fuel_monotone(host, 
                                                        b,
                                                        i + 1,
                                                        after_call(f, rest.drop_last(), results, g),
                                                        fuel,
                                                        more,
                                                    );
                                                }
                                            }
                                        }
                                    }
                                }
                            }
                        }
                    }
                },
                _ => {
                    if let Ok(f2) = spec_step(op, f) {
                        lemma_run_fuel_monotone(host, b, i + 1, f2, fuel, more);
                    }
                },
            },
        }
    }
}

/// Nothing after the first top-level `end` runs: a block whose instructions are
/// those of `b2` followed by `end` and any `rest` runs as `b2` alone does, from
/// any position within `b2`.
pub proof fn lemma_end_stops<H: Fn(usize, Vec<ValueTypeProvider>) -> Option<Vec<ValueTypeProvider>>>(
    host: H,
    b1: Block,
    b2: Block,
    rest: Seq<Instruction>,
    i: int,
    f: FrameView,
    fuel: nat,
)
    requires
        0 <= i <= b2.operations@.len(),
        b1.operations@ == b2.operations@ + seq![Instruction::Op(Operation::End)] + rest,
    ensures
        spec_run(host, b1, i, f, fuel) == spec_run(host, b2, i, f, fuel),
    decreases b2.operations@.len() - i,
{
    let n = b2.operations@.len();
    if i == n {
        assert(b1.operations@[i] == Instruction::Op(Operation::End));
    } else {
        assert(b1.operations@[i] == b2.operations@[i]);
        match b2.operations@[i] {
            Instruction::Block(inner) => {
                if let Ok((x, f2)) = spec_run(host, inner, 0, f, fuel) {
                    lemma_end_stops(host, b1, b2, rest, i + 1, f2, fuel);
                }
            },
            Instruction::Loop(inner) => {
                if let Ok((x, f2)) = spec_loop(host, inner, f, fuel) {
                    lemma_end_stops(host, b1, b2, rest, i + 1, f2, fuel);
                }
            },
            Instruction::If(inner) => {
                if f.stack.len() > 0 {
                    if let ValueTypeProvider::I32(c) = f.stack.last() {
                        let f1 = FrameView { stack: f.stack.drop_last(), ..f };
                        let branch = if c != 0 {
                            spec_run(host, inner, 0, f1, fuel)
                        } else {
                            match find_else(inner.operations@, 0) {
                                Some(k) => spec_run(host, inner, k + 1, f1, fuel),
                                None => Ok((0, f1)),
                            }
                        };
                        if let Ok((_, f2)) = branch {
                            lemma_end_stops(host, b1, b2, rest, i + 1, f2, fuel);
                        }
                    }
                }
            },
            Instruction::Op(op) => match op {
                Operation::BranchIf(_) => {
                    if f.stack.len() > 0 {
                        let f1 = FrameView { stack: f.stack.drop_last(), ..f };
                        lemma_end_stops(host, b1, b2, rest, i + 1, f1, fuel);
                    }
                },
                Operation::BranchTable(_) => {
                    if f.stack.len() == 0 {
                        lemma_end_stops(host, b1, b2, rest, i + 1, f, fuel);
                    } else {
                        let f1 = FrameView { stack: f.stack.drop_last(), ..f };
                        lemma_end_stops(host, b1, b2, rest, i + 1, f1, fuel);
                    }
                },
                Operation::Call(idx) => {
                    if idx < f.functions.len() {
                        let func = f.functions[idx as int];
                        if let Ok((args, rest_stack)) = spec_pop_args(func.signature.parameters@, 0, f.stack, Seq::empty()) {
                            if let Some(results) = host_results(host, idx, args) {
                                lemma_end_stops(host, b1, b2, rest, i + 1, after_call(f, rest_stack, results, f), fuel);
                            }
                            if fuel > 0 {
                                if let Some(body) = func.body {
                                    if let Ok((results, g)) = spec_invoke(host, func.signature, func.locals@, body, args, f, (fuel - 1) as nat) {
                                        lemma_end_stops(host, b1, b2, rest, i + 1, after_call(f, rest_stack, results, g), fuel);
                                    }
                                }
                            }
                        }
                    }
                },
                Operation::CallIndirect(tidx, _) => {
                    if tidx < f.types.len() {
                        let TypeDefinition::Func(sig) = f.types[tidx as int];
                        if let Ok((args, rest_stack)) = spec_pop_args(sig.parameters@, 0, f.stack, Seq::empty()) {
                            if rest_stack.len() > 0 {
                                if let ValueTypeProvider::I32(index) = rest_stack.last() {
                                    if let Ok(fidx) = table_function(f.tables, index) {
                                        if fidx < f.functions.len() && fuel > 0 {
                                            let func = f.functions[fidx as int];
                                            if let Some(results) = host_results(host, fidx, args) {
                                                lemma_end_stops(
                                                    host,
                                                    b1,
                                                    b2,
                                                    rest,
                                                    i + 1,
                                                    after_call(f, rest_stack.drop_last(), results, f),
                                                    fuel,
                                                );
                                            }
                                            if let Some(body) = func.body {
                                                if let Ok((results, g)) = spec_invoke(
                                                    host,
                                                    func.signature,
                                                    func.locals@,
                                                    body,
                                                    args,
                                                    f,
                                                    (fuel - 1) as nat,
                                                ) {
                                                    lemma_end_stops(
                                                        host,
                                                        b1,
                                                        b2,
                                                        rest,
                                                        i + 1,
                                                        after_call(f, rest_stack.drop_last(), results, g),
                                                        fuel,
                                                    );
                                                }
                                            }
                                        }
                                    }
                                }
                            }
                        }
                    }
                },
                _ => {
                    if let Ok(f2) = spec_step(op, f) {
                        lemma_end_stops(host, b1, b2, rest, i + 1, f2, fuel);
                    }
                },
            },
        }
    }
}

/// Nothing after the first top-level `end` of a block runs: a block whose
/// instructions are `b2`'s, then `end`, then any `rest`, gives what `b2` alone
/// gives and leaves the same frame.
pub proof fn lemma_nothing_after_end<H: Fn(usize, Vec<ValueTypeProvider>) -> Option<Vec<ValueTypeProvider>>>(
    host: H,
    b1: Block,
    b2: Block,
    rest: Seq<Instruction>,
    f: FrameView,
    fuel: nat,
)
    requires
        b1.operations@ == b2.operations@ + seq![Instruction::Op(Operation::End)] + rest,
    ensures
        spec_run(host, b1, 0, f, fuel) == spec_run(host, b2, 0, f, fuel),
{
    lemma_end_stops(host, b1, b2, rest, 0, f, fuel);
}

/// With a host that provides no function, a call of a function without a body
/// stops the run with `HostFunction`, once its arguments have been popped and
/// fuel remains.
pub proof fn lemma_hostless_call<H: Fn(usize, Vec<ValueTypeProvider>) -> Option<Vec<ValueTypeProvider>>>(
    host: H,
    b: Block,
    i: int,
    f: FrameView,
    fuel: nat,
    idx: usize,
)
    requires
        forall|a: Seq<ValueTypeProvider>| #[trigger] host_results(host, idx, a) is None,
        0 <= i < b.operations@.len(),
        b.operations@[i] == Instruction::Op(Operation::Call(idx)),
        idx < f.functions.len(),
        f.functions[idx as int].body is None,
        spec_pop_args(f.functions[idx as int].signature.parameters@, 0, f.stack, Seq::empty()) is Ok,
        fuel > 0,
    ensures
        spec_run(host, b, i, f, fuel) == Err::<(i32, FrameView), Trap>(Trap::HostFunction),
{
    let (args, rest) = spec_pop_args(f.functions[idx as int].signature.parameters@, 0, f.stack, Seq::empty())->Ok_0;
    assert(host_results(host, idx, args) is None);
}

/// With `no_host`, a call of a function without a body stops the run with
/// `HostFunction`, once its arguments have been popped and fuel remains.
pub proof fn lemma_no_host_call(b: Block, i: int, f: FrameView, fuel: nat, idx: usize)
    requires
        0 <= i < b.operations@.len(),
        b.operations@[i] == Instruction::Op(Operation::Call(idx)),
        idx < f.functions.len(),
        f.functions[idx as int].body is None,
        spec_pop_args(f.functions[idx as int].signature.parameters@, 0, f.stack, Seq::empty()) is Ok,
        fuel > 0,
    ensures
        spec_run(no_host, b, i, f, fuel) == Err::<(i32, FrameView), Trap>(Trap::HostFunction),
{
    lemma_no_host();
    lemma_hostless_call(no_host, b, i, f, fuel, idx);
}

/// Whether `op` only works on the frame: a run takes its step and goes on
/// with the next instruction.
pub open spec fn steps_alone(op: Operation) -> bool {
    !(op is Else || op is End || op is Branch || op is Return || op is BranchIf || op is BranchTable || op is Call
        || op is CallIndirect)
}

/// One step of a run, with any host, a concrete one such as `no_host` too:
/// past the last instruction a run gives 0; `end` and `else` give 0, `br n`
/// gives `n` and `return` gives -1, all on the frame as it is; `br_if n` pops
/// its condition and gives `n` where it is not 0, else goes on; an instruction
/// that only works on the frame takes its step and the run goes on with the
/// next; a block runs its instructions, and a number other than 0 that they
/// give leaves it.
pub proof fn lemma_run_unfold<H: Fn(usize, Vec<ValueTypeProvider>) -> Option<Vec<ValueTypeProvider>>>(
    host: H,
    b: Block,
    i: int,
    f: FrameView,
    fuel: nat,
)
    ensures
        i < 0 || i >= b.operations@.len() ==> spec_run(host, b, i, f, fuel) == Ok::<(i32, FrameView), Trap>((0i32, f)),
        0 <= i < b.operations@.len() ==> match b.operations@[i] {
            Instruction::Op(Operation::End) => spec_run(host, b, i, f, fuel) == Ok::<(i32, FrameView), Trap>((0i32, f)),
            Instruction::Op(Operation::Else) => spec_run(host, b, i, f, fuel) == Ok::<(i32, FrameView), Trap>((0i32, f)),
            Instruction::Op(Operation::Branch(n)) => spec_run(host, b, i, f, fuel) == Ok::<(i32, FrameView), Trap>(
                (n as i32, f),
            ),
            Instruction::Op(Operation::Return) => spec_run(host, b, i, f, fuel) == Ok::<(i32, FrameView), Trap>((-1i32, f)),
            Instruction::Op(Operation::BranchIf(n)) => spec_run(host, b, i, f, fuel) == if f.stack.len() == 0 {
                Err(Trap::StackEmpty)
            } else {
                match f.stack.last() {
                    ValueTypeProvider::I32(c) => if c != 0 {
                        Ok((n as i32, FrameView { stack: f.stack.drop_last(), ..f }))
                    } else {
                        spec_run(host, b, i + 1, FrameView { stack: f.stack.drop_last(), ..f }, fuel)
                    },
                    _ => Err(Trap::TypeMismatch),
                }
            },
            Instruction::Op(op) => steps_alone(op) ==> spec_run(host, b, i, f, fuel) == match spec_step(op, f) {
                Err(e) => Err(e),
                Ok(f2) => spec_run(host, b, i + 1, f2, fuel),
            },
            Instruction::Block(inner) => spec_run(host, b, i, f, fuel) == match spec_run(host, inner, 0, f, fuel) {
                Err(e) => Err(e),
                Ok((x, f2)) => if x != 0 {
                    spec_leave(x, f2)
                } else {
                    spec_run(host, b, i + 1, f2, fuel)
                },
            },
            _ => true,
        },
{
}

/// More fuel changes nothing for a call that did not run out of it.
pub proof fn lemma_invoke_fuel_monotone<H: Fn(usize, Vec<ValueTypeProvider>) -> Option<Vec<ValueTypeProvider>>>(host: H, 
    sig: FuncSignature,
    locals: Seq<ValueType>,
    body: Block,
    args: Seq<ValueTypeProvider>,
    f: FrameView,
    fuel: nat,
    more: nat,
)
    requires
        fuel <= more,
        spec_invoke(host, sig, locals, body, args, f, fuel) != Err::<(Seq<ValueTypeProvider>, FrameView), Trap>(Trap::OutOfFuel),
    ensures
        spec_invoke(host, sig, locals, body, args, f, more) == spec_invoke(host, sig, locals, body, args, f, fuel),
    decreases fuel, body, body.operations@.len() + 1,
{
    if spec_check_arguments(sig.parameters@, args) is Ok {
        let callee = FrameView { locals: args + locals.map_values(|t: ValueType| zero_of(t)), stack: Seq::empty(), ..f };
        lemma_run_fuel_monotone(host, body, 0, callee, fuel, more);
    }
}

/// More fuel changes nothing for a loop that did not run out of it.
pub proof fn lemma_loop_fuel_monotone<H: Fn(usize, Vec<ValueTypeProvider>) -> Option<Vec<ValueTypeProvider>>>(host: H, inner: Block, f: FrameView, fuel: nat, more: nat)
    requires
        fuel <= more,
        spec_loop(host, inner, f, fuel) != Err::<(i32, FrameView), Trap>(Trap::OutOfFuel),
    ensures
        spec_loop(host, inner, f, more) == spec_loop(host, inner, f, fuel),
    decreases fuel, inner, 0int,
{
    if fuel > 0 {
        lemma_run_fuel_monotone(host, inner, 0, f, (fuel - 1) as nat, (more - 1) as nat);
        if let Ok((x, f2)) = spec_run(host, inner, 0, f, (fuel - 1) as nat) {
            if x == 0 {
                lemma_loop_fuel_monotone(host, inner, f2, (fuel - 1) as nat, (more - 1) as nat);
            }
        }
    }
}

/// Whether a run left the frame as the spec says: on success the number it gave
/// and the frame's new values.
pub open spec fn ran(res: Result<i32, Trap>, before: StackFrame, after: StackFrame, expected: Result<(i32, FrameView), Trap>) -> bool {
    match res {
        Ok(x) => expected == Ok::<(i32, FrameView), Trap>((x, after@)),
        Err(e) => expected == Err::<(i32, FrameView), Trap>(e),
    }
}

/// The position of the first `else` among `ops` from the start.
fn find_else_of(ops: &Vec<Instruction>) -> (r: Option<usize>)
    ensures
        match r {
            Some(k) => find_else(ops@, 0) == Some(k as int) && k < ops.len(),
            None => find_else(ops@, 0) is None,
        },
{
    let mut k: usize = 0;
    while k < ops.len()
        invariant
            k <= ops.len(),
            find_else(ops@, 0) == find_else(ops@, k as int),
        decreases ops.len() - k,
    {
        match &ops[k] {
            Instruction::Op(Operation::Else) => {
                return Some(k);
            },
            _ => {},
        }
        k = k + 1;
    }
    None
}

/// Runs `br_table` with the popped index.
fn branch_table(bt: &BranchTable, index: i32) -> (res: Result<i32, Trap>)
    ensures
        match res {
            Ok(x) => forall|f: FrameView| spec_branch_table(*bt, index, f) == Ok::<(i32, FrameView), Trap>((x, f)),
            Err(e) => forall|f: FrameView| spec_branch_table(*bt, index, f) == Err::<(i32, FrameView), Trap>(e),
        },
{
    let k: usize = index as usize;
    if k < bt.targets.len() {
        let t: u32 = bt.targets[k];
        if t == 0 {
            Err(Trap::IntegerOverflow)
        } else {
            Ok((t - 1) as i32)
        }
    } else {
        Ok(bt.default as i32)
    }
}

/// Pops the arguments of a call, the first parameter taking the top of the stack.
fn pop_args(params: &Vec<ValueType>, stack: &mut Vec<ValueTypeProvider>) -> (res: Result<Vec<ValueTypeProvider>, Trap>)
    ensures
        match res {
            Ok(args) => spec_pop_args(params@, 0, old(stack)@, Seq::empty()) == Ok::<
                (Seq<ValueTypeProvider>, Seq<ValueTypeProvider>),
                Trap,
            >((args@, final(stack)@)),
            Err(e) => spec_pop_args(params@, 0, old(stack)@, Seq::empty()) == Err::<
                (Seq<ValueTypeProvider>, Seq<ValueTypeProvider>),
                Trap,
            >(e),
        },
{
    let mut args: Vec<ValueTypeProvider> = Vec::new();
    let mut k: usize = 0;
    while k < params.len()
        invariant
            k <= params.len(),
            spec_pop_args(params@, 0, old(stack)@, Seq::empty()) == spec_pop_args(params@, k as int, stack@, args@),
        decreases params.len() - k,
    {
        let v = match stack.pop() {
            None => {
                return Err(Trap::StackEmpty);
            },
            Some(v) => v,
        };
        if v.value_type() != params[k] {
            return Err(Trap::TypeMismatch);
        }
        args.push(v);
        k = k + 1;
    }
    Ok(args)
}

/// Pops the results of a call from the callee's stack.
fn collect(result_types: &Vec<ValueType>, stack: &mut Vec<ValueTypeProvider>) -> (r: Vec<ValueTypeProvider>)
    ensures
        r@ == spec_collect(result_types@, 0, old(stack)@, Seq::empty()),
{
    let mut results: Vec<ValueTypeProvider> = Vec::new();
    let mut k: usize = 0;
    while k < result_types.len()
        invariant
            k <= result_types.len(),
            spec_collect(result_types@, 0, old(stack)@, Seq::empty()) == spec_collect(result_types@, k as int, stack@, results@),
        decreases result_types.len() - k,
    {
        match stack.pop() {
            None => {},
            Some(v) => {
                if v.value_type() == result_types[k] {
                    results.push(v);
                }
            },
        }
        k = k + 1;
    }
    results
}

/// The zero value of a type.
fn zero(t: ValueType) -> (r: ValueTypeProvider)
    ensures
        r == zero_of(t),
{
    match t {
        ValueType::I32 => ValueTypeProvider::I32(0),
        ValueType::I64 => ValueTypeProvider::I64(0),
        ValueType::F32 => ValueTypeProvider::F32(0),
        ValueType::F64 => ValueTypeProvider::F64(0),
    }
}

/// The function that entry `index` of table 0 names.
fn table_function_of(tables: &Vec<Table>, index: i32) -> (res: Result<usize, Trap>)
    ensures
        match res {
            Ok(x) => table_function(tables@, index) == Ok::<usize, Trap>(x),
            Err(e) => table_function(tables@, index) == Err::<usize, Trap>(e),
        },
{
    if tables.len() == 0 {
        return Err(Trap::NoTable);
    }
    match &tables[0] {
        Table::AnyFunc { limits: _, values } => {
            let k: usize = index as usize;
            if k < values.len() {
                Ok(values[k])
            } else {
                Err(Trap::NoSuchFunction)
            }
        },
    }
}

/// Pushes the values of `results` in order.
fn push_all(stack: &mut Vec<ValueTypeProvider>, results: &Vec<ValueTypeProvider>)
    ensures
        final(stack)@ == old(stack)@ + results@,
{
    let mut k: usize = 0;
    while k < results.len()
        invariant
            k <= results.len(),
            stack@ == old(stack)@ + results@.take(k as int),
        decreases results.len() - k,
    {
        stack.push(results[k]);
        k = k + 1;
        assert(stack@ =~= old(stack)@ + results@.take(k as int));
    }
    assert(results@.take(results@.len() as int) =~= results@);
}

/// Calls a function with a body: checks the arguments, runs the body on a frame
/// of its own that shares the instance state, and gives the results.
fn invoke<'a, H: Fn(usize, Vec<ValueTypeProvider>) -> Option<Vec<ValueTypeProvider>>>(
    sig: &FuncSignature,
    locals: &Vec<ValueType>,
    body: &Block,
    args: Vec<ValueTypeProvider>,
    frame: &mut StackFrame<'a>,
    host: &H,
    fuel: u64,
) -> (res: Result<Vec<ValueTypeProvider>, Trap>)
    requires
        host_callable(*host),
    ensures
        host_deterministic(*host) ==> (match res {
            Ok(results) => spec_invoke(*host, *sig, locals@, *body, args@, old(frame)@, fuel as nat) matches Ok((rs, g)) && rs
                == results@ && final(frame)@ == (FrameView { locals: old(frame)@.locals, stack: old(frame)@.stack, ..g }),
            Err(e) => spec_invoke(*host, *sig, locals@, *body, args@, old(frame)@, fuel as nat) == Err::<
                (Seq<ValueTypeProvider>, FrameView),
                Trap,
            >(e),
        }),
    decreases fuel, *body, body.operations@.len() + 1,
{
    if check_argument_types(&sig.parameters, &args).is_err() {
        return Err(Trap::WrongArguments);
    }
    let mut callee_locals = args;
    let mut k: usize = 0;
    let ghost start = callee_locals@;
    while k < locals.len()
        invariant
            k <= locals.len(),
            callee_locals@ == start + locals@.take(k as int).map_values(|t: ValueType| zero_of(t)),
        decreases locals.len() - k,
    {
        callee_locals.push(zero(locals[k]));
        k = k + 1;
        assert(callee_locals@ =~= start + locals@.take(k as int).map_values(|t: ValueType| zero_of(t)));
    }
    assert(locals@.take(locals@.len() as int) =~= locals@);
    let mut data = ModuleInstanceData::new(frame.data.functions);
    std::mem::swap(&mut frame.data, &mut data);
    let mut callee = StackFrame { data, locals: callee_locals, stack: Vec::new() };
    let r = body.run(&mut callee, host, 0, fuel);
    let StackFrame { data: callee_data, locals: _, stack: mut callee_stack } = callee;
    frame.data = callee_data;
    r?;
    let results = collect(&sig.returns, &mut callee_stack);
    Ok(results)
}

impl Block {
    /// Runs the instructions from position `start` on.
    fn run<'a, H: Fn(usize, Vec<ValueTypeProvider>) -> Option<Vec<ValueTypeProvider>>>(&self, frame: &mut StackFrame<'a>, host: &H, start: usize, fuel: u64) -> (res: Result<i32, Trap>)
        requires
            host_callable(*host),
        ensures
            host_deterministic(*host) ==> ran(res, *old(frame), *final(frame), spec_run(*host, *self, start as int, old(frame)@, fuel as nat)),
        decreases fuel, *self, 0int,
    {
        let mut i: usize = start;
        while i < self.operations.len()
            invariant
                host_callable(*host),
                host_deterministic(*host) ==> spec_run(*host, *self, start as int, old(frame)@, fuel as nat) == spec_run(
                    *host,
                    *self,
                    i as int,
                    frame@,
                    fuel as nat,
                ),
            decreases self.operations.len() - i,
        {
            match &self.operations[i] {
                Instruction::Block(inner) => {
                    let x = inner.run(frame, host, 0, fuel)?;
                    if x != 0 {
                        if x == i32::MIN {
                            return Err(Trap::IntegerOverflow);
                        }
                        return Ok(x - 1);
                    }
                },
                Instruction::Loop(inner) => {
                    let x = inner.run_loop(frame, host, fuel)?;
                    if x == i32::MIN {
                        return Err(Trap::IntegerOverflow);
                    }
                    if x - 1 != 0 {
                        return Ok(x - 1);
                    }
                },
                Instruction::If(inner) => {
                    let c = match frame.stack.pop() {
                        None => {
                            return Err(Trap::StackEmpty);
                        },
                        Some(ValueTypeProvider::I32(c)) => c,
                        Some(_) => {
                            return Err(Trap::TypeMismatch);
                        },
                    };
                    if c != 0 {
                        inner.run(frame, host, 0, fuel)?;
                    } else {
                        match find_else_of(&inner.operations) {
                            Some(k) => {
                                inner.run(frame, host, k + 1, fuel)?;
                            },
                            None => {},
                        }
                    }
                },
                Instruction::Op(op) => {
                    match op {
                        Operation::Else => {
                            return Ok(0);
                        },
                        Operation::End => {
                            return Ok(0);
                        },
                        Operation::Branch(n) => {
                            return Ok(*n as i32);
                        },
                        Operation::Return => {
                            return Ok(-1);
                        },
                        Operation::BranchIf(n) => {
                            let c = match frame.stack.pop() {
                                None => {
                                    return Err(Trap::StackEmpty);
                                },
                                Some(ValueTypeProvider::I32(c)) => c,
                                Some(_) => {
                                    return Err(Trap::TypeMismatch);
                                },
                            };
                            if c != 0 {
                                return Ok(*n as i32);
                            }
                        },
                        Operation::BranchTable(bt) => {
                            match frame.stack.pop() {
                                Some(ValueTypeProvider::I32(index)) => {
                                    return branch_table(bt, index);
                                },
                                _ => {},
                            }
                        },
                        Operation::Call(idx) => {
                            let funcs: &'a Vec<Func> = frame.data.functions;
                            if *idx >= funcs.len() {
                                return Err(Trap::NoSuchFunction);
                            }
                            let func = &funcs[*idx];
                            let ghost f0 = frame@;
                            let args = pop_args(&func.signature.parameters, &mut frame.stack)?;
                            if fuel == 0 {
                                return Err(Trap::OutOfFuel);
                            }
                            match &func.body {
                                None => {
                                    match call_host(host, *idx, args) {
                                        None => {
                                            return Err(Trap::HostFunction);
                                        },
                                        Some(results) => {
                                            push_all(&mut frame.stack, &results);
                                        },
                                    }
                                },
                                Some(body) => {
                                    proof {
                                        lemma_invoke_frame(*host, func.signature, func.locals@, *body, args@, frame@, f0, (fuel - 1) as nat);
                                    }
                                    let results = invoke(&func.signature, &func.locals, body, args, frame, host, fuel - 1)?;
                                    push_all(&mut frame.stack, &results);
                                },
                            }
                        },
                        Operation::CallIndirect(tidx, _) => {
                            if *tidx >= frame.data.types.len() {
                                return Err(Trap::NoSuchType);
                            }
                            let ghost f0 = frame@;
                            let args = match &frame.data.types[*tidx] {
                                TypeDefinition::Func(sig) => pop_args(&sig.parameters, &mut frame.stack)?,
                            };
                            let index = match frame.stack.pop() {
                                None => {
                                    return Err(Trap::StackEmpty);
                                },
                                Some(ValueTypeProvider::I32(index)) => index,
                                Some(_) => {
                                    return Err(Trap::TypeMismatch);
                                },
                            };
                            let fidx = table_function_of(&frame.data.tables, index)?;
                            let funcs: &'a Vec<Func> = frame.data.functions;
                            if fidx >= funcs.len() {
                                return Err(Trap::NoSuchFunction);
                            }
                            if fuel == 0 {
                                return Err(Trap::OutOfFuel);
                            }
                            let func = &funcs[fidx];
                            match &func.body {
                                None => {
                                    match call_host(host, fidx, args) {
                                        None => {
                                            return Err(Trap::HostFunction);
                                        },
                                        Some(results) => {
                                            push_all(&mut frame.stack, &results);
                                        },
                                    }
                                },
                                Some(body) => {
                                    proof {
                                        lemma_invoke_frame(*host, func.signature, func.locals@, *body, args@, frame@, f0, (fuel - 1) as nat);
                                    }
                                    let results = invoke(&func.signature, &func.locals, body, args, frame, host, fuel - 1)?;
                                    push_all(&mut frame.stack, &results);
                                },
                            }
                        },
                        _ => {
                            step(op, frame)?;
                        },
                    }
                },
            }
            i = i + 1;
        }
        Ok(0)
    }

    /// Runs the block as a loop's body until it gives a number other than 0.
    fn run_loop<'a, H: Fn(usize, Vec<ValueTypeProvider>) -> Option<Vec<ValueTypeProvider>>>(&self, frame: &mut StackFrame<'a>, host: &H, fuel: u64) -> (res: Result<i32, Trap>)
        requires
            host_callable(*host),
        ensures
            host_deterministic(*host) ==> ran(res, *old(frame), *final(frame), spec_loop(*host, *self, old(frame)@, fuel as nat)),
        decreases fuel, *self, 1int,
    {
        let mut k: u64 = fuel;
        while k > 0
            invariant
                host_callable(*host),
                k <= fuel,
                host_deterministic(*host) ==> spec_loop(*host, *self, old(frame)@, fuel as nat) == spec_loop(*host, *self, frame@, k as nat),
            decreases k,
        {
            let x = self.run(frame, host, 0, k - 1)?;
            if x != 0 {
                return Ok(x);
            }
            k = k - 1;
        }
        Err(Trap::OutOfFuel)
    }
}

/// A call of function `index` of the frame's instance with `args`: the function
/// must exist; one without a body is the host's, which gives the results and
/// leaves the frame as it was.
pub open spec fn spec_call_fn<H: Fn(usize, Vec<ValueTypeProvider>) -> Option<Vec<ValueTypeProvider>>>(host: H, f: FrameView, index: usize, args: Seq<ValueTypeProvider>, fuel: nat) -> Result<
    (Seq<ValueTypeProvider>, FrameView),
    Trap,
> {
    if index >= f.functions.len() {
        Err(Trap::NoSuchFunction)
    } else {
        let func = f.functions[index as int];
        match func.body {
            None => match host_results(host, index, args) {
                None => Err(Trap::HostFunction),
                Some(results) => Ok((results, f)),
            },
            Some(body) => spec_invoke(host, func.signature, func.locals@, body, args, f, fuel),
        }
    }
}

/// Calls function `index` of the frame's instance with `args` and gives its
/// results; the frame keeps its locals and stack and takes the instance state
/// that the call left.
pub fn call_fn<'a, H: Fn(usize, Vec<ValueTypeProvider>) -> Option<Vec<ValueTypeProvider>>>(frame: &mut StackFrame<'a>, host: &H, index: usize, args: Vec<ValueTypeProvider>, fuel: u64) -> (res: Result<
    Vec<ValueTypeProvider>,
    Trap,
>)
    requires
        host_callable(*host),
    ensures
        index >= old(frame)@.functions.len() ==> res == Err::<Vec<ValueTypeProvider>, Trap>(Trap::NoSuchFunction)
            && final(frame)@ == old(frame)@,
        index < old(frame)@.functions.len() && old(frame)@.functions[index as int].body is None ==> final(frame)@ == old(frame)@
            && match res {
            Ok(results) => call_ensures(*host, (index, args), Some(results)),
            Err(e) => e == Trap::HostFunction && call_ensures(*host, (index, args), None::<Vec<ValueTypeProvider>>),
        },
        host_deterministic(*host) ==> (match res {
            Ok(results) => spec_call_fn(*host, old(frame)@, index, args@, fuel as nat) matches Ok((rs, g)) && rs == results@
                && final(frame)@ == (FrameView { locals: old(frame)@.locals, stack: old(frame)@.stack, ..g }),
            Err(e) => spec_call_fn(*host, old(frame)@, index, args@, fuel as nat) == Err::<
                (Seq<ValueTypeProvider>, FrameView),
                Trap,
            >(e),
        }),
{
    let funcs: &'a Vec<Func> = frame.data.functions;
    if index >= funcs.len() {
        return Err(Trap::NoSuchFunction);
    }
    let func = &funcs[index];
    match &func.body {
        None => match call_host(host, index, args) {
            None => Err(Trap::HostFunction),
            Some(results) => Ok(results),
        },
        Some(body) => invoke(&func.signature, &func.locals, body, args, frame, host, fuel),
    }
}

/// Calls the function that `exports` name `name` with `args`, as `call_fn`
/// does; a name that is not exported, or that names no function, gives
/// `NoSuchFunction` and leaves the frame as it was.
pub fn call_export<'a, H: Fn(usize, Vec<ValueTypeProvider>) -> Option<Vec<ValueTypeProvider>>>(
    frame: &mut StackFrame<'a>,
    host: &H,
    exports: &Vec<ExportEntry>,
    name: &String,
    args: Vec<ValueTypeProvider>,
    fuel: u64,
) -> (res: Result<Vec<ValueTypeProvider>, Trap>)
    requires
        host_callable(*host),
    ensures
        if export_map(exports@).contains_key(name@) && export_map(exports@)[name@] is Function {
            let index = export_map(exports@)[name@]->Function_0;
            host_deterministic(*host) ==> match res {
                Ok(results) => spec_call_fn(*host, old(frame)@, index, args@, fuel as nat) matches Ok((rs, g))
                    && rs == results@ && final(frame)@ == (FrameView {
                    locals: old(frame)@.locals,
                    stack: old(frame)@.stack,
                    ..g
                }),
                Err(e) => spec_call_fn(*host, old(frame)@, index, args@, fuel as nat) == Err::<
                    (Seq<ValueTypeProvider>, FrameView),
                    Trap,
                >(e),
            }
        } else {
            res == Err::<Vec<ValueTypeProvider>, Trap>(Trap::NoSuchFunction) && final(frame)@ == old(frame)@
        },
{
    match exported_function(exports, name) {
        Some(index) => call_fn(frame, host, index, args, fuel),
        None => Err(Trap::NoSuchFunction),
    }
}

/// Something that can run on a stack frame.
pub trait Execute {
    /// Runs on the frame, with the functions that the module imports provided by
    /// `host` and loops and calls bounded by `fuel`; gives the number that tells
    /// how many enclosing blocks a branch still leaves, or why it stopped.
    fn execute<H: Fn(usize, Vec<ValueTypeProvider>) -> Option<Vec<ValueTypeProvider>>>(&self, stack_frame: &mut StackFrame, host: &H, fuel: u64) -> Result<i32, Trap>
        requires
            host_callable(*host),
    ;
}

impl Execute for Block {
    fn execute<H: Fn(usize, Vec<ValueTypeProvider>) -> Option<Vec<ValueTypeProvider>>>(&self, stack_frame: &mut StackFrame, host: &H, fuel: u64) -> (res: Result<i32, Trap>)
        ensures
            host_deterministic(*host) ==> ran(
                res,
                *old(stack_frame),
                *final(stack_frame),
                spec_run(*host, *self, 0, old(stack_frame)@, fuel as nat),
            ),
    {
        self.run(stack_frame, host, 0, fuel)
    }
}

} // verus!
