//! What holds of every call.

use vstd::prelude::*;
use crate::abi::{Trap, ALLOWED_REGISTERS};
use crate::decoder::{param_types, record_size};
use crate::dispatch::{entered, spec_step, well_formed, ActionView, CallView, EventView, Phase};
use crate::hostfn::HandlerValue;
use crate::table::{spec_lookup, TableView};

verus! {

/// The place of a phase in the course of a call.
pub open spec fn phase_rank(phase: Phase) -> nat {
    match phase {
        Phase::GasSyncIn => 0,
        Phase::Decode { .. } => 1,
        Phase::Invoke { .. } => 2,
        Phase::Trace { .. } => 3,
        Phase::GasSyncOut { .. } => 4,
        Phase::Return => 5,
    }
}

/// The place in the course of a call of the phase that waits for an action
/// to be done.
pub open spec fn action_rank(action: ActionView) -> nat {
    match action {
        ActionView::ReadGas => 0,
        ActionView::ReadMemory { .. } => 1,
        ActionView::Invoke { .. } => 2,
        ActionView::Trace { .. } => 3,
        ActionView::WriteGas { .. } => 4,
        ActionView::Return { .. } => 5,
    }
}

/// The call after these events, taken in one after the other.
pub open spec fn run_call<B>(table: TableView<B>, call: CallView, events: Seq<EventView>) -> CallView
    decreases events.len(),
{
    if events.len() == 0 {
        call
    } else {
        let before = run_call(table, call, events.drop_last());
        match spec_step(table, before, events.last()) {
            Some((next, _)) => next,
            None => before,
        }
    }
}

/// What a call asks for while it takes in these events, one after the other.
pub open spec fn run_actions<B>(table: TableView<B>, call: CallView, events: Seq<EventView>) -> Seq<
    ActionView,
>
    decreases events.len(),
{
    if events.len() == 0 {
        Seq::empty()
    } else {
        let asked = run_actions(table, call, events.drop_last());
        match spec_step(table, run_call(table, call, events.drop_last()), events.last()) {
            Some((_, action)) => asked.push(action),
            None => asked,
        }
    }
}

/// A call that is entered is one that can arise: it stands at the reading
/// of the gas register, with no gas and no arguments yet.
pub proof fn law_entered_can_arise<B>(
    table: TableView<B>,
    symbol: Seq<u8>,
    registers: Seq<u64>,
    read_only: bool,
    trace: bool,
)
    requires
        table.entries.len() <= usize::MAX,
        registers.len() == 6,
    ensures
        well_formed(table, entered(symbol, registers, read_only, trace)),
        entered(symbol, registers, read_only, trace).phase is GasSyncIn,
{
}

/// A step leaves a call that can arise, in a later phase, and asks for what
/// that phase waits for. Nothing of a call but its phase, its gas and its
/// arguments changes, and the gas changes in the first step only.
pub proof fn law_step_advances<B>(table: TableView<B>, call: CallView, event: EventView)
    requires
        well_formed(table, call),
    ensures
        spec_step(table, call, event) matches Some((next, action)) ==> {
            &&& well_formed(table, next)
            &&& phase_rank(next.phase) > phase_rank(call.phase)
            &&& action_rank(action) == phase_rank(next.phase)
            &&& next.symbol == call.symbol
            &&& next.registers == call.registers
            &&& next.read_only == call.read_only
            &&& next.trace == call.trace
            &&& next.gas_left == call.gas_left || call.phase is GasSyncIn
        },
{
    crate::table::lemma_lookup_finds(table.entries, call.symbol, table.entries.len() as int);
}

/// Taking in events leaves a call that can arise, in the same or a later
/// phase.
pub proof fn law_run_advances<B>(table: TableView<B>, call: CallView, events: Seq<EventView>)
    requires
        well_formed(table, call),
    ensures
        well_formed(table, run_call(table, call, events)),
        phase_rank(run_call(table, call, events).phase) >= phase_rank(call.phase),
        run_call(table, call, events).symbol == call.symbol,
        run_call(table, call, events).registers == call.registers,
        run_call(table, call, events).read_only == call.read_only,
        run_call(table, call, events).trace == call.trace,
    decreases events.len(),
{
    if events.len() > 0 {
        law_run_advances(table, call, events.drop_last());
        law_step_advances(table, run_call(table, call, events.drop_last()), events.last());
    }
}

/// The steps of a call come in a strict order: whatever events a call takes
/// in, what it asks for belongs to ever later phases, all of them later than
/// the phase it started in and none later than the phase it ends in. So
/// nothing is asked for twice: guest memory is read at most once, the
/// function runs at most once, the gas is written back at most once, and the
/// call returns at most once.
pub proof fn law_strict_order<B>(table: TableView<B>, call: CallView, events: Seq<EventView>)
    requires
        well_formed(table, call),
    ensures
        forall|i: int, j: int|
            0 <= i < j < run_actions(table, call, events).len() ==> action_rank(
                #[trigger] run_actions(table, call, events)[i],
            ) < action_rank(#[trigger] run_actions(table, call, events)[j]),
        forall|i: int|
            0 <= i < run_actions(table, call, events).len() ==> phase_rank(call.phase)
                < action_rank(#[trigger] run_actions(table, call, events)[i]) <= phase_rank(
                run_call(table, call, events).phase,
            ),
    decreases events.len(),
{
    if events.len() > 0 {
        let before = run_call(table, call, events.drop_last());
        let asked = run_actions(table, call, events.drop_last());
        let all = run_actions(table, call, events);
        law_strict_order(table, call, events.drop_last());
        law_run_advances(table, call, events.drop_last());
        law_step_advances(table, before, events.last());
        assert forall|i: int| 0 <= i < all.len() implies phase_rank(call.phase) < action_rank(
            #[trigger] all[i],
        ) <= phase_rank(run_call(table, call, events).phase) by {
            if i < asked.len() {
                assert(all[i] == asked[i]);
            }
        }
        assert forall|i: int, j: int| 0 <= i < j < all.len() implies action_rank(
            #[trigger] all[i],
        ) < action_rank(#[trigger] all[j]) by {
            assert(all[i] == asked[i]);
            if j < asked.len() {
                assert(all[j] == asked[j]);
            }
        }
    }
}

/// While a call takes in events, the last thing it asked for is what the
/// phase it is in waits for; a call that has asked for nothing is in the
/// phase it started in.
pub proof fn law_last_action<B>(table: TableView<B>, call: CallView, events: Seq<EventView>)
    requires
        well_formed(table, call),
    ensures
        ({
            let asked = run_actions(table, call, events);
            let now = run_call(table, call, events);
            if asked.len() == 0 {
                now == call
            } else {
                action_rank(asked.last()) == phase_rank(now.phase)
            }
        }),
    decreases events.len(),
{
    if events.len() > 0 {
        law_last_action(table, call, events.drop_last());
        law_run_advances(table, call, events.drop_last());
        law_step_advances(table, run_call(table, call, events.drop_last()), events.last());
    }
}

/// Guest memory is read for a function with more parameters than registers
/// and for no other: a step asks for it only at the entry of a call, for
/// the function that the call names, at the address in the first register
/// and in the size of the function's record.
pub proof fn law_memory_read<B>(table: TableView<B>, call: CallView, event: EventView)
    requires
        well_formed(table, call),
    ensures
        spec_step(table, call, event) matches Some((next, ActionView::ReadMemory { address, len }))
            ==> {
            &&& call.phase is GasSyncIn
            &&& spec_lookup(table.entries, call.symbol) matches Some(
                index,
            )
            &&& table.entries[index].params.len() > ALLOWED_REGISTERS
            &&& next.phase == Phase::Decode { index: index as usize }
            &&& address == call.registers[0]
            &&& len == record_size(param_types(table.entries[index].params))
        },
{
    crate::table::lemma_lookup_finds(table.entries, call.symbol, table.entries.len() as int);
}

/// Decoding the arguments of a function with at most as many parameters as
/// there are registers never reads guest memory: a call that names such a
/// function, or none, asks for no read, whatever events it takes in.
pub proof fn law_registers_need_no_memory<B>(
    table: TableView<B>,
    call: CallView,
    events: Seq<EventView>,
)
    requires
        well_formed(table, call),
        call.phase is GasSyncIn,
        spec_lookup(table.entries, call.symbol) matches Some(index)
            ==> table.entries[index].params.len() <= ALLOWED_REGISTERS,
    ensures
        forall|i: int|
            0 <= i < run_actions(table, call, events).len() ==> !(#[trigger] run_actions(
                table,
                call,
                events,
            )[i] is ReadMemory),
    decreases events.len(),
{
    if events.len() > 0 {
        let before = run_call(table, call, events.drop_last());
        let asked = run_actions(table, call, events.drop_last());
        let all = run_actions(table, call, events);
        law_registers_need_no_memory(table, call, events.drop_last());
        law_run_advances(table, call, events.drop_last());
        law_memory_read(table, before, events.last());
        assert forall|i: int| 0 <= i < all.len() implies !(#[trigger] all[i] is ReadMemory) by {
            if i < asked.len() {
                assert(all[i] == asked[i]);
            }
        }
    }
}

/// A function with more parameters than registers has its record read: a
/// call that names such a function and has the gas for a call asks, as the
/// first thing after the gas register is read, for as many bytes as the
/// record has, from the address in the first register.
pub proof fn law_record_is_read<B>(table: TableView<B>, call: CallView, register: i64, index: int)
    requires
        well_formed(table, call),
        call.phase is GasSyncIn,
        register >= table.host_fn_cost,
        spec_lookup(table.entries, call.symbol) == Some(index),
        table.entries[index].params.len() > ALLOWED_REGISTERS,
    ensures
        spec_step(table, call, EventView::Gas(register)) == Some(
            (
                CallView {
                    gas_left: (register - table.host_fn_cost) as nat,
                    phase: Phase::Decode { index: index as usize },
                    ..call
                },
                ActionView::ReadMemory {
                    address: call.registers[0],
                    len: record_size(param_types(table.entries[index].params)),
                },
            ),
        ),
{
    crate::table::lemma_lookup_finds(table.entries, call.symbol, table.entries.len() as int);
}

/// Once the gas is being written back the call is decided: whatever events
/// it takes in from then on, it asks for nothing but to return the result
/// it waits with.
pub proof fn law_sync_out_returns<B>(
    table: TableView<B>,
    call: CallView,
    result: Result<Option<u64>, Trap>,
    events: Seq<EventView>,
)
    requires
        well_formed(table, call),
        call.phase == (Phase::GasSyncOut { result }),
    ensures
        ({
            let asked = run_actions(table, call, events);
            let now = run_call(table, call, events);
            ||| asked.len() == 0 && now == call
            ||| asked == seq![ActionView::Return { result }] && now.phase is Return
        }),
    decreases events.len(),
{
    if events.len() > 0 {
        law_sync_out_returns(table, call, result, events.drop_last());
        let asked = run_actions(table, call, events.drop_last());
        if asked.len() == 0 {
            assert(Seq::<ActionView>::empty().push(ActionView::Return { result }) =~= seq![
                ActionView::Return { result },
            ]);
        }
    }
}

/// A read of guest memory that fails, or that gives another number of bytes
/// than the record has, ends the call with `MemoryAccessFailure`: the gas is
/// written back, the function does not run, and nothing of a record is
/// decoded.
pub proof fn law_failed_read<B>(
    table: TableView<B>,
    call: CallView,
    index: usize,
    reply: Option<Seq<u8>>,
    events: Seq<EventView>,
)
    requires
        well_formed(table, call),
        call.phase == (Phase::Decode { index }),
        reply matches Some(bytes) ==> bytes.len() != record_size(
            param_types(table.entries[index as int].params),
        ),
    ensures
        spec_step(table, call, EventView::Memory(reply)) matches Some((next, action)) && {
            &&& next == CallView {
                phase: Phase::GasSyncOut { result: Err(Trap::MemoryAccessFailure) },
                ..call
            }
            &&& action == ActionView::WriteGas { gas: call.gas_left as i64 }
            &&& forall|i: int|
                0 <= i < run_actions(table, next, events).len() ==> #[trigger] run_actions(
                    table,
                    next,
                    events,
                )[i] == (ActionView::Return { result: Err(Trap::MemoryAccessFailure) })
        },
{
    let next = CallView {
        phase: Phase::GasSyncOut { result: Err(Trap::MemoryAccessFailure) },
        ..call
    };
    law_sync_out_returns(table, next, Err(Trap::MemoryAccessFailure), events);
}

/// A call of a name that the table does not hold is charged the cost of a
/// call, once, and then fails with `InvalidSyscall`: the step that takes
/// in the gas register leaves that much less gas and asks to write it back,
/// and the call then returns the trap.
pub proof fn law_unknown_symbol<B>(table: TableView<B>, call: CallView, register: i64)
    requires
        well_formed(table, call),
        call.phase is GasSyncIn,
        register >= table.host_fn_cost,
        spec_lookup(table.entries, call.symbol) is None,
    ensures
        run_actions(table, call, seq![EventView::Gas(register), EventView::GasWritten]) == seq![
            ActionView::WriteGas { gas: (register - table.host_fn_cost) as i64 },
            ActionView::Return { result: Err(Trap::InvalidSyscall) },
        ],
        run_call(table, call, seq![EventView::Gas(register), EventView::GasWritten]) == (CallView {
            gas_left: (register - table.host_fn_cost) as nat,
            phase: Phase::Return,
            ..call
        }),
{
    let events = seq![EventView::Gas(register), EventView::GasWritten];
    let first = seq![EventView::Gas(register)];
    assert(events.drop_last() =~= first);
    assert(first.drop_last() =~= Seq::<EventView>::empty());
    assert(run_call(table, call, first.drop_last()) == call);
    assert(run_actions(table, call, first.drop_last()) =~= Seq::<ActionView>::empty());
    let charged = CallView {
        gas_left: (register - table.host_fn_cost) as nat,
        phase: Phase::GasSyncOut { result: Err(Trap::InvalidSyscall) },
        ..call
    };
    assert(run_call(table, call, first) == charged);
    assert(run_actions(table, call, first) =~= seq![
        ActionView::WriteGas { gas: (register - table.host_fn_cost) as i64 },
    ]);
    assert(run_actions(table, call, events) =~= seq![
        ActionView::WriteGas { gas: (register - table.host_fn_cost) as i64 },
        ActionView::Return { result: Err(Trap::InvalidSyscall) },
    ]);
}

/// Every call whose gas register holds at least the cost of a call is
/// charged that cost, once, whatever it names and however it ends: after the
/// step that takes in the gas register, the gas that is left is what the
/// register held less the cost, and no later step changes it.
pub proof fn law_base_charge<B>(table: TableView<B>, call: CallView, register: i64)
    requires
        well_formed(table, call),
        call.phase is GasSyncIn,
        register >= table.host_fn_cost,
    ensures
        spec_step(table, call, EventView::Gas(register)) matches Some((next, _))
            && next.gas_left == register - table.host_fn_cost,
{
    crate::table::lemma_lookup_finds(table.entries, call.symbol, table.entries.len() as int);
}

/// A call whose gas does not suffice for the cost of a call fails with
/// `OutOfGas` before the function is looked up, and its gas is written back
/// as it was read.
pub proof fn law_base_charge_fails<B>(table: TableView<B>, call: CallView, register: i64)
    requires
        well_formed(table, call),
        call.phase is GasSyncIn,
        0 <= register < table.host_fn_cost,
    ensures
        spec_step(table, call, EventView::Gas(register)) == Some(
            (
                CallView {
                    gas_left: register as nat,
                    phase: Phase::GasSyncOut { result: Err(Trap::OutOfGas) },
                    ..call
                },
                ActionView::WriteGas { gas: register },
            ),
        ),
{
}

/// A gas register that holds a negative number ends the call at once: it
/// returns `OutOfGas`, and nothing is charged, looked up or written back.
pub proof fn law_sync_in_fails<B>(table: TableView<B>, call: CallView, register: i64)
    requires
        call.phase is GasSyncIn,
        register < 0,
    ensures
        spec_step(table, call, EventView::Gas(register)) == Some(
            (
                CallView { phase: Phase::Return, ..call },
                ActionView::Return { result: Err(Trap::OutOfGas) },
            ),
        ),
{
}

/// A function that changes state does not run in a call that may only read:
/// whatever events such a call takes in, it never asks for the function to
/// run.
pub proof fn law_read_only_never_runs_mutating<B>(
    table: TableView<B>,
    call: CallView,
    index: int,
    events: Seq<EventView>,
)
    requires
        well_formed(table, call),
        call.phase is GasSyncIn,
        call.read_only,
        spec_lookup(table.entries, call.symbol) == Some(index),
        table.entries[index].mutating,
    ensures
        forall|i: int|
            0 <= i < run_actions(table, call, events).len() ==> !(#[trigger] run_actions(
                table,
                call,
                events,
            )[i] is Invoke),
    decreases events.len(),
{
    if events.len() > 0 {
        let before = run_call(table, call, events.drop_last());
        let asked = run_actions(table, call, events.drop_last());
        let all = run_actions(table, call, events);
        law_read_only_never_runs_mutating(table, call, index, events.drop_last());
        law_run_advances(table, call, events.drop_last());
        crate::table::lemma_lookup_finds(table.entries, call.symbol, table.entries.len() as int);
        assert forall|i: int| 0 <= i < all.len() implies !(#[trigger] all[i] is Invoke) by {
            if i < asked.len() {
                assert(all[i] == asked[i]);
            }
        }
    }
}

/// Where a function that changes state is called in a call that may only
/// read, the call fails with `StateChangeDenied` once its arguments are
/// decoded: with the arguments in registers and the gas for a call, the step
/// that takes in the gas register already carries the trap, on its way to
/// the trace if the call is traced and to the gas register if not.
pub proof fn law_state_change_denied<B>(
    table: TableView<B>,
    call: CallView,
    register: i64,
    index: int,
)
    requires
        well_formed(table, call),
        call.phase is GasSyncIn,
        call.read_only,
        register >= table.host_fn_cost,
        spec_lookup(table.entries, call.symbol) == Some(index),
        table.entries[index].mutating,
        table.entries[index].params.len() <= ALLOWED_REGISTERS,
    ensures
        spec_step(table, call, EventView::Gas(register)) matches Some((next, action)) && {
            &&& next.gas_left == register - table.host_fn_cost
            &&& if call.trace {
                &&& next.phase == (Phase::Trace {
                    index: index as usize,
                    outcome: Err(Trap::StateChangeDenied),
                })
                &&& action is Trace
            } else {
                &&& next.phase == (Phase::GasSyncOut { result: Err(Trap::StateChangeDenied) })
                &&& action == ActionView::WriteGas { gas: next.gas_left as i64 }
            }
        },
{
    crate::table::lemma_lookup_finds(table.entries, call.symbol, table.entries.len() as int);
}

/// A call returns from two places only: when the gas register has been
/// written, with the result that waited for it, and when the gas register
/// that was read held a negative number, with `OutOfGas`.
pub proof fn law_return_origin<B>(table: TableView<B>, call: CallView, event: EventView)
    requires
        well_formed(table, call),
    ensures
        spec_step(table, call, event) matches Some((_, ActionView::Return { result })) ==> {
            ||| call.phase == (Phase::GasSyncOut { result }) && event is GasWritten
            ||| {
                &&& call.phase is GasSyncIn
                &&& event matches EventView::Gas(register)
                &&& register < 0
                &&& result == Err::<Option<u64>, Trap>(Trap::OutOfGas)
            }
        },
{
    crate::table::lemma_lookup_finds(table.entries, call.symbol, table.entries.len() as int);
}

/// Where a function that changes state takes its arguments from a record,
/// the record is read before the call is refused: once it is read, a call
/// that may only read fails with `StateChangeDenied`, on its way to the trace
/// if the call is traced and to the gas register if not.
pub proof fn law_state_change_denied_after_read<B>(
    table: TableView<B>,
    call: CallView,
    index: usize,
    bytes: Seq<u8>,
)
    requires
        well_formed(table, call),
        call.phase == (Phase::Decode { index }),
        call.read_only,
        table.entries[index as int].mutating,
        bytes.len() == record_size(param_types(table.entries[index as int].params)),
    ensures
        spec_step(table, call, EventView::Memory(Some(bytes))) matches Some((next, action)) && {
            &&& next.gas_left == call.gas_left
            &&& if call.trace {
                &&& next.phase == (Phase::Trace { index, outcome: Err(Trap::StateChangeDenied) })
                &&& action is Trace
            } else {
                &&& next.phase == (Phase::GasSyncOut { result: Err(Trap::StateChangeDenied) })
                &&& action == ActionView::WriteGas { gas: next.gas_left as i64 }
            }
        },
{
}

/// Whether a call that may only read and names a function that changes
/// state is on its way to a trap.
pub open spec fn refused(phase: Phase) -> bool {
    match phase {
        Phase::GasSyncIn => true,
        Phase::Decode { .. } => true,
        Phase::Invoke { .. } => false,
        Phase::Trace { outcome, .. } => outcome == Err::<HandlerValue, Trap>(
            Trap::StateChangeDenied,
        ),
        Phase::GasSyncOut { result } => is_refusal(result),
        Phase::Return => true,
    }
}

/// The results with which a call that may only read and names a function
/// that changes state can end: it ran out of gas before the function was
/// looked up, its record could not be read, or it was refused.
pub open spec fn is_refusal(result: Result<Option<u64>, Trap>) -> bool {
    ||| result == Err::<Option<u64>, Trap>(Trap::OutOfGas)
    ||| result == Err::<Option<u64>, Trap>(Trap::MemoryAccessFailure)
    ||| result == Err::<Option<u64>, Trap>(Trap::StateChangeDenied)
}

/// A call that may only read and names a function that changes state never
/// returns a value: whatever events it takes in, what it returns is a trap,
/// and the trap is `StateChangeDenied` unless the gas did not suffice for a
/// call or the record of arguments could not be read.
pub proof fn law_read_only_call_fails<B>(
    table: TableView<B>,
    call: CallView,
    index: int,
    events: Seq<EventView>,
)
    requires
        well_formed(table, call),
        call.phase is GasSyncIn,
        call.read_only,
        spec_lookup(table.entries, call.symbol) == Some(index),
        table.entries[index].mutating,
    ensures
        refused(run_call(table, call, events).phase),
        forall|i: int|
            0 <= i < run_actions(table, call, events).len() ==> (#[trigger] run_actions(
                table,
                call,
                events,
            )[i] matches ActionView::Return { result } ==> is_refusal(result)),
    decreases events.len(),
{
    if events.len() > 0 {
        let before = run_call(table, call, events.drop_last());
        let asked = run_actions(table, call, events.drop_last());
        let all = run_actions(table, call, events);
        law_read_only_call_fails(table, call, index, events.drop_last());
        law_run_advances(table, call, events.drop_last());
        crate::table::lemma_lookup_finds(table.entries, call.symbol, table.entries.len() as int);
        assert forall|i: int| 0 <= i < all.len() implies (#[trigger] all[i] matches ActionView::Return {
            result,
        } ==> is_refusal(result)) by {
            if i < asked.len() {
                assert(all[i] == asked[i]);
            }
        }
    }
}

/// The gas is written back before every return but the one that a negative
/// gas register causes: where a call that is entered asks to return, either
/// the last thing it asked for before was to write the gas register, or it
/// has asked for nothing else and returns `OutOfGas`.
pub proof fn law_return_follows_sync_out<B>(
    table: TableView<B>,
    call: CallView,
    events: Seq<EventView>,
)
    requires
        well_formed(table, call),
        call.phase is GasSyncIn,
    ensures
        forall|i: int|
            0 <= i < run_actions(table, call, events).len() && (#[trigger] run_actions(
                table,
                call,
                events,
            )[i] is Return) ==> {
                ||| i > 0 && run_actions(table, call, events)[i - 1] is WriteGas
                ||| i == 0 && run_actions(table, call, events)[0] == (ActionView::Return {
                    result: Err(Trap::OutOfGas),
                })
            },
    decreases events.len(),
{
    if events.len() > 0 {
        let before = run_call(table, call, events.drop_last());
        let asked = run_actions(table, call, events.drop_last());
        let all = run_actions(table, call, events);
        law_return_follows_sync_out(table, call, events.drop_last());
        law_run_advances(table, call, events.drop_last());
        law_last_action(table, call, events.drop_last());
        law_step_advances(table, before, events.last());
        law_return_origin(table, before, events.last());
        assert forall|i: int| 0 <= i < all.len() && (#[trigger] all[i] is Return) implies {
            ||| i > 0 && all[i - 1] is WriteGas
            ||| i == 0 && all[0] == (ActionView::Return { result: Err(Trap::OutOfGas) })
        } by {
            if i < asked.len() {
                assert(all[i] == asked[i]);
                if i > 0 {
                    assert(all[i - 1] == asked[i - 1]);
                }
            } else if i > 0 {
                assert(all[i - 1] == asked.last());
                law_strict_order(table, call, events.drop_last());
                assert(action_rank(asked[asked.len() - 1]) > 0);
            }
        }
    }
}

/// What the trace answers is not looked at: the call goes on in the same
/// way whether the trace took the line or not.
pub proof fn law_trace_answer_ignored<B>(table: TableView<B>, call: CallView, a: bool, b: bool)
    ensures
        spec_step(table, call, EventView::Traced(a)) == spec_step(
            table,
            call,
            EventView::Traced(b),
        ),
{
}

/// Tracing changes nothing but the trace: when a function has run, a traced
/// call asks for its line to be written and then goes on to the same phase,
/// with the same gas, and asks for the same thing as a call that is not
/// traced.
pub proof fn law_tracing_changes_nothing<B>(
    table: TableView<B>,
    call: CallView,
    event: EventView,
    taken: bool,
)
    requires
        well_formed(table, call),
        call.phase is Invoke,
        event is Handler,
        spec_step(table, call, event) is Some,
    ensures
        ({
            let traced = CallView { trace: true, ..call };
            let silent = CallView { trace: false, ..call };
            &&& spec_step(table, traced, event) matches Some((line_asked, first))
            &&& first is Trace
            &&& spec_step(table, line_asked, EventView::Traced(taken)) matches Some((after, second))
            &&& spec_step(table, silent, event) matches Some((plain, asked))
            &&& second == asked
            &&& after == CallView { trace: true, ..plain }
        }),
{
}


} // verus!
