//! The course of a call.
//!
//! A call passes through its phases in a fixed order: the gas register is
//! taken over, the cost of a call is charged, the function is looked up, its
//! arguments are decoded, a function that changes state is refused where only
//! reading is allowed, the function runs, the call is traced, the result is
//! encoded, and what is left of the gas is written back, before the call
//! returns. Any of these can end the call with a trap. A trap does not keep
//! the gas from being written back; only a gas register that holds no valid
//! amount ends the call at once, with nothing written.
//!
//! A call is traced from the moment its arguments are decoded: its line
//! shows what the function returned or, where the function was refused, the
//! refusal. A call that ends before that leaves no line.
//!
//! What only the surroundings of this crate can do — reading and writing the
//! gas register, reading guest memory, running the function, appending to the
//! trace — is asked of them as an [`Action`], and their answer comes back as an
//! [`Event`]. [`CallContext::step`] decides everything in between.

use vstd::prelude::*;
use crate::abi::{ArgValue, Trap, ALLOWED_REGISTERS};
use crate::decoder::{param_types, record_size, spec_decode_record, spec_decode_registers};
use crate::gas::GasMeter;
use crate::hostfn::{HandlerValue, HostFnReturn};
use crate::table::{spec_lookup, DispatchTable, TableView};
use crate::trace::{spec_trace_line, trace_line};

verus! {

/// Why a host function failed.
#[derive(Clone, Copy, Debug, PartialEq, Eq, Structural)]
pub enum HandlerError {
    /// It ran out of gas.
    OutOfGas,
    /// It failed for a reason of its own, which the code names.
    Failed(u32),
}

/// What the surroundings report back.
#[derive(Debug, PartialEq, Eq)]
pub enum Event {
    /// The gas register was read, and held this.
    Gas(i64),
    /// Guest memory was read, and held these bytes; `None` where the read
    /// failed.
    Memory(Option<Vec<u8>>),
    /// The function ran, to this end.
    Handler(Result<HandlerValue, HandlerError>),
    /// The line was handed to the trace, which took it or did not.
    Traced(bool),
    /// The gas register was written.
    GasWritten,
}

/// An event, with its bytes as a sequence.
pub enum EventView {
    Gas(i64),
    Memory(Option<Seq<u8>>),
    Handler(Result<HandlerValue, HandlerError>),
    Traced(bool),
    GasWritten,
}

/// What the surroundings are asked to do next.
#[derive(Debug, PartialEq, Eq)]
pub enum Action {
    /// Read the gas register.
    ReadGas,
    /// Read `len` bytes of guest memory from `address` on.
    ReadMemory { address: u64, len: usize },
    /// Run the function at `index` of the table on these arguments.
    Invoke { index: usize, args: Vec<ArgValue> },
    /// Append this line to the trace.
    Trace { line: Vec<u8> },
    /// Write this to the gas register.
    WriteGas { gas: i64 },
    /// Hand this to the executor: the call is over.
    Return { result: Result<Option<u64>, Trap> },
}

/// An action, with its arguments and bytes as sequences.
pub enum ActionView {
    ReadGas,
    ReadMemory { address: u64, len: nat },
    Invoke { index: usize, args: Seq<ArgValue> },
    Trace { line: Seq<u8> },
    WriteGas { gas: i64 },
    Return { result: Result<Option<u64>, Trap> },
}

/// Where a call stands: what it waits for.
#[derive(Clone, Copy, Debug, PartialEq, Eq)]
pub enum Phase {
    /// For the gas register.
    GasSyncIn,
    /// For the record of arguments of the function at `index`.
    Decode { index: usize },
    /// For the function at `index` to run.
    Invoke { index: usize },
    /// For the trace to take the line.
    Trace { index: usize, outcome: Result<HandlerValue, Trap> },
    /// For the gas register to be written.
    GasSyncOut { result: Result<Option<u64>, Trap> },
    /// For nothing: the call is over.
    Return,
}

/// A call as the contracts see it.
pub struct CallView {
    /// The name of the function that is called, as the guest wrote it.
    pub symbol: Seq<u8>,
    /// The registers in which the guest passed arguments.
    pub registers: Seq<u64>,
    /// Whether the call may only read state.
    pub read_only: bool,
    /// Whether the call is traced.
    pub trace: bool,
    /// The gas that is left.
    pub gas_left: nat,
    /// The arguments, once they are decoded.
    pub args: Seq<ArgValue>,
    pub phase: Phase,
}

/// One call of a host function, from its entry to its return.
#[derive(Debug)]
pub struct CallContext<'a, B> {
    table: &'a DispatchTable<B>,
    symbol: Vec<u8>,
    registers: [u64; 6],
    read_only: bool,
    trace: bool,
    gas: GasMeter,
    args: Vec<ArgValue>,
    phase: Phase,
}

impl View for Event {
    type V = EventView;

    open spec fn view(&self) -> EventView {
        match *self {
            Event::Gas(register) => EventView::Gas(register),
            Event::Memory(Some(bytes)) => EventView::Memory(Some(bytes@)),
            Event::Memory(None) => EventView::Memory(None),
            Event::Handler(outcome) => EventView::Handler(outcome),
            Event::Traced(taken) => EventView::Traced(taken),
            Event::GasWritten => EventView::GasWritten,
        }
    }
}

impl View for Action {
    type V = ActionView;

    open spec fn view(&self) -> ActionView {
        match *self {
            Action::ReadGas => ActionView::ReadGas,
            Action::ReadMemory { address, len } => ActionView::ReadMemory {
                address,
                len: len as nat,
            },
            Action::Invoke { index, args } => ActionView::Invoke { index, args: args@ },
            Action::Trace { line } => ActionView::Trace { line: line@ },
            Action::WriteGas { gas } => ActionView::WriteGas { gas },
            Action::Return { result } => ActionView::Return { result },
        }
    }
}

impl HandlerError {
    /// The trap that a failure of a host function ends its call with.
    pub open spec fn spec_trap(self) -> Trap {
        match self {
            HandlerError::OutOfGas => Trap::OutOfGas,
            HandlerError::Failed(code) => Trap::HandlerError(code),
        }
    }

    /// The trap that a failure of a host function ends its call with.
    pub fn trap(self) -> (trap: Trap)
        ensures
            trap == self.spec_trap(),
    {
        match self {
            HandlerError::OutOfGas => Trap::OutOfGas,
            HandlerError::Failed(code) => Trap::HandlerError(code),
        }
    }
}

/// The outcome of a host function as its call carries it on.
pub open spec fn spec_wrap(outcome: Result<HandlerValue, HandlerError>) -> Result<
    HandlerValue,
    Trap,
> {
    match outcome {
        Ok(value) => Ok(value),
        Err(e) => Err(e.spec_trap()),
    }
}

/// The result that the executor is handed for an outcome of a function that
/// returns values of this kind.
pub open spec fn encode_result(kind: HostFnReturn, outcome: Result<HandlerValue, Trap>) -> Result<
    Option<u64>,
    Trap,
> {
    match outcome {
        Ok(value) => Ok(kind.spec_map_output(value)),
        Err(trap) => Err(trap),
    }
}

/// Whether the function at `index` is the one that the call names.
pub open spec fn found<B>(table: TableView<B>, call: CallView, index: usize) -> bool {
    &&& index < table.entries.len()
    &&& spec_lookup(table.entries, call.symbol) == Some(index as int)
}

/// Whether a call is one that can arise for `table`: the function it has got
/// to is the one it names, it waits for a record only where the function
/// takes its arguments from one, and it runs a function only on as many
/// arguments as the function has parameters.
pub open spec fn well_formed<B>(table: TableView<B>, call: CallView) -> bool {
    &&& table.entries.len() <= usize::MAX
    &&& call.registers.len() == 6
    &&& call.gas_left <= i64::MAX
    &&& match call.phase {
        Phase::Decode { index } => {
            &&& found(table, call, index)
            &&& table.entries[index as int].params.len() > ALLOWED_REGISTERS
        },
        Phase::Invoke { index } => {
            &&& found(table, call, index)
            &&& call.args.len() == table.entries[index as int].params.len()
        },
        Phase::Trace { index, .. } => found(table, call, index),
        _ => true,
    }
}

/// A call as it is entered.
pub open spec fn entered(symbol: Seq<u8>, registers: Seq<u64>, read_only: bool, trace: bool) -> CallView {
    CallView {
        symbol,
        registers,
        read_only,
        trace,
        gas_left: 0,
        args: Seq::empty(),
        phase: Phase::GasSyncIn,
    }
}

/// The end of every call that got past its entry: what is left of the gas is
/// written back, and `result` waits to be returned.
pub open spec fn sync_out(call: CallView, result: Result<Option<u64>, Trap>) -> (
    CallView,
    ActionView,
) {
    (
        CallView { phase: Phase::GasSyncOut { result }, ..call },
        ActionView::WriteGas { gas: call.gas_left as i64 },
    )
}

/// After the function at `index` ran or was refused: a traced call has its
/// line written, any other goes on to encode the result.
pub open spec fn trace<B>(
    table: TableView<B>,
    call: CallView,
    index: usize,
    outcome: Result<HandlerValue, Trap>,
) -> (CallView, ActionView) {
    let entry = table.entries[index as int];
    if call.trace {
        (
            CallView { phase: Phase::Trace { index, outcome }, ..call },
            ActionView::Trace {
                line: spec_trace_line(entry.name, entry.params, call.args, outcome),
            },
        )
    } else {
        sync_out(call, encode_result(entry.returns, outcome))
    }
}

/// After the arguments are decoded: a function that changes state is refused
/// in a call that may only read, and does not run; any other is run.
pub open spec fn mutation_guard<B>(table: TableView<B>, call: CallView, index: usize) -> (
    CallView,
    ActionView,
) {
    if table.entries[index as int].mutating && call.read_only {
        trace(table, call, index, Err(Trap::StateChangeDenied))
    } else {
        (
            CallView { phase: Phase::Invoke { index }, ..call },
            ActionView::Invoke { index, args: call.args },
        )
    }
}

/// After the function is found: with at most six parameters its arguments
/// are taken from the registers; with more, the record that holds them is
/// asked for, at the address in the first register and of the record's size.
pub open spec fn decode<B>(table: TableView<B>, call: CallView, index: usize) -> (
    CallView,
    ActionView,
) {
    let types = param_types(table.entries[index as int].params);
    if types.len() > ALLOWED_REGISTERS {
        (
            CallView { phase: Phase::Decode { index }, ..call },
            ActionView::ReadMemory { address: call.registers[0], len: record_size(types) },
        )
    } else {
        mutation_guard(
            table,
            CallView { args: spec_decode_registers(types, call.registers), ..call },
            index,
        )
    }
}

/// After guest memory was read: a read that failed, or gave another number
/// of bytes than the record has, ends the call; else the record is decoded.
pub open spec fn decode_reply<B>(
    table: TableView<B>,
    call: CallView,
    index: usize,
    reply: Option<Seq<u8>>,
) -> (CallView, ActionView) {
    let types = param_types(table.entries[index as int].params);
    match reply {
        Some(bytes) => if bytes.len() == record_size(types) {
            mutation_guard(table, CallView { args: spec_decode_record(types, bytes), ..call }, index)
        } else {
            sync_out(call, Err(Trap::MemoryAccessFailure))
        },
        None => sync_out(call, Err(Trap::MemoryAccessFailure)),
    }
}

/// After the cost of a call is charged: a symbol that names no function of
/// the table ends the call.
pub open spec fn lookup<B>(table: TableView<B>, call: CallView) -> (CallView, ActionView) {
    match spec_lookup(table.entries, call.symbol) {
        None => sync_out(call, Err(Trap::InvalidSyscall)),
        Some(index) => decode(table, call, index as usize),
    }
}

/// After the gas is taken over: every call is charged the cost of a call,
/// before the function is looked up. Where the gas does not suffice the call
/// ends, and the gas stays as it is.
pub open spec fn base_charge<B>(table: TableView<B>, call: CallView) -> (CallView, ActionView) {
    if call.gas_left < table.host_fn_cost {
        sync_out(call, Err(Trap::OutOfGas))
    } else {
        lookup(table, CallView { gas_left: (call.gas_left - table.host_fn_cost) as nat, ..call })
    }
}

/// The entry of a call: the gas that the register holds is taken over. A
/// negative register ends the call at once, and nothing is written back.
pub open spec fn gas_sync_in<B>(table: TableView<B>, call: CallView, register: i64) -> (
    CallView,
    ActionView,
) {
    if register < 0 {
        (
            CallView { phase: Phase::Return, ..call },
            ActionView::Return { result: Err(Trap::OutOfGas) },
        )
    } else {
        base_charge(table, CallView { gas_left: register as nat, ..call })
    }
}

/// Whether `event` is what a call in this phase waits for. A host function
/// must hand back a value of the kind that its descriptor names.
pub open spec fn spec_expects<B>(table: TableView<B>, call: CallView, event: EventView) -> bool {
    match (call.phase, event) {
        (Phase::GasSyncIn, EventView::Gas(_)) => true,
        (Phase::Decode { .. }, EventView::Memory(_)) => true,
        (Phase::Invoke { index }, EventView::Handler(outcome)) => outcome matches Ok(value)
            ==> value.spec_kind() == table.entries[index as int].returns,
        (Phase::Trace { .. }, EventView::Traced(_)) => true,
        (Phase::GasSyncOut { .. }, EventView::GasWritten) => true,
        _ => false,
    }
}

/// One step of a call: the call after `event`, and what is asked next. An
/// event that the call does not wait for gives nothing.
pub open spec fn spec_step<B>(table: TableView<B>, call: CallView, event: EventView) -> Option<
    (CallView, ActionView),
> {
    if !spec_expects(table, call, event) {
        None
    } else {
        match (call.phase, event) {
            (Phase::GasSyncIn, EventView::Gas(register)) => Some(
                gas_sync_in(table, call, register),
            ),
            (Phase::Decode { index }, EventView::Memory(reply)) => Some(
                decode_reply(table, call, index, reply),
            ),
            (Phase::Invoke { index }, EventView::Handler(outcome)) => Some(
                trace(table, call, index, spec_wrap(outcome)),
            ),
            (Phase::Trace { index, outcome }, EventView::Traced(_)) => Some(
                sync_out(call, encode_result(table.entries[index as int].returns, outcome)),
            ),
            (Phase::GasSyncOut { result }, EventView::GasWritten) => Some(
                (CallView { phase: Phase::Return, ..call }, ActionView::Return { result }),
            ),
            _ => None,
        }
    }
}

/// A copy of these arguments.
fn copy_args(args: &Vec<ArgValue>) -> (copy: Vec<ArgValue>)
    ensures
        copy@ == args@,
{
    let mut copy: Vec<ArgValue> = Vec::new();
    let mut i: usize = 0;
    while i < args.len()
        invariant
            i <= args@.len(),
            copy@ == args@.subrange(0, i as int),
        decreases args@.len() - i,
    {
        copy.push(args[i]);
        assert(copy@ =~= args@.subrange(0, i as int + 1));
        i += 1;
    }
    assert(args@.subrange(0, args@.len() as int) =~= args@);
    copy
}

impl<'a, B> CallContext<'a, B> {
    #[verifier::type_invariant]
    spec fn can_arise(self) -> bool {
        well_formed(self.table@, self@)
    }

    /// The table that the call is dispatched from.
    pub closed spec fn table(self) -> DispatchTable<B> {
        *self.table
    }

    /// Enters a call of the function that the guest names by `symbol`, with
    /// the registers as the guest left them. The first thing to do is to read
    /// the gas register.
    pub fn enter(
        table: &'a DispatchTable<B>,
        symbol: Vec<u8>,
        registers: [u64; 6],
        read_only: bool,
        trace: bool,
    ) -> (entry: (Self, Action))
        ensures
            entry.0.table() == *table,
            entry.0@ == entered(symbol@, registers@, read_only, trace),
            entry.1@ == ActionView::ReadGas,
    {
        let _ = table.len();
        let call = CallContext {
            table,
            symbol,
            registers,
            read_only,
            trace,
            gas: GasMeter::empty(),
            args: Vec::new(),
            phase: Phase::GasSyncIn,
        };
        (call, Action::ReadGas)
    }

    /// Where the call stands.
    pub fn phase(&self) -> (phase: Phase)
        ensures
            phase == self@.phase,
    {
        self.phase
    }

    /// The gas that is left.
    pub fn gas_left(&self) -> (gas: u64)
        ensures
            gas == self@.gas_left,
    {
        self.gas.gas_left()
    }

    /// Whether the call may only read state.
    pub fn is_read_only(&self) -> (read_only: bool)
        ensures
            read_only == self@.read_only,
    {
        self.read_only
    }

    /// Takes `amount` from the gas of the call, for work that the function
    /// does while it runs. Where less is left, or the function is not running,
    /// nothing is taken and the function is out of gas. Nothing else of the call
    /// changes.
    pub fn charge_gas(&mut self, amount: u64) -> (result: Result<(), HandlerError>)
        ensures
            final(self).table() == old(self).table(),
            match result {
                Ok(()) => {
                    &&& old(self)@.phase is Invoke
                    &&& amount <= old(self)@.gas_left
                    &&& final(self)@ == CallView {
                        gas_left: (old(self)@.gas_left - amount) as nat,
                        ..old(self)@
                    }
                },
                Err(e) => {
                    &&& !(old(self)@.phase is Invoke) || amount > old(self)@.gas_left
                    &&& e == HandlerError::OutOfGas
                    &&& final(self)@ == old(self)@
                },
            },
    {
        proof {
            use_type_invariant(&*self);
        }
        match self.phase {
            Phase::Invoke { .. } => {},
            _ => {
                return Err(HandlerError::OutOfGas);
            },
        }
        let mut meter = self.gas;
        match meter.charge(amount) {
            Ok(()) => {
                self.gas = meter;
                Ok(())
            },
            Err(_) => Err(HandlerError::OutOfGas),
        }
    }

    /// Whether `event` is what the call waits for.
    pub fn expects(&self, event: &Event) -> (yes: bool)
        ensures
            yes == spec_expects(self.table()@, self@, event@),
    {
        proof {
            use_type_invariant(self);
        }
        match (self.phase, event) {
            (Phase::GasSyncIn, Event::Gas(_)) => true,
            (Phase::Decode { .. }, Event::Memory(_)) => true,
            (Phase::Invoke { index }, Event::Handler(outcome)) => match outcome {
                Ok(value) => {
                    let kind = value.kind();
                    let wanted = self.table.entry(index).returns;
                    kind == wanted
                },
                Err(_) => true,
            },
            (Phase::Trace { .. }, Event::Traced(_)) => true,
            (Phase::GasSyncOut { .. }, Event::GasWritten) => true,
            _ => false,
        }
    }

    fn sync_out(&mut self, result: Result<Option<u64>, Trap>) -> (action: Action)
        ensures
            final(self).table() == old(self).table(),
            final(self)@ == sync_out(old(self)@, result).0,
            action@ == sync_out(old(self)@, result).1,
    {
        proof {
            use_type_invariant(&*self);
        }
        self.phase = Phase::GasSyncOut { result };
        Action::WriteGas { gas: self.gas.sync_to_executor() }
    }

    fn trace(&mut self, index: usize, outcome: Result<HandlerValue, Trap>) -> (action: Action)
        requires
            found(old(self).table()@, old(self)@, index),
            old(self)@.args.len() == old(self).table()@.entries[index as int].params.len(),
        ensures
            final(self).table() == old(self).table(),
            final(self)@ == trace(old(self).table()@, old(self)@, index, outcome).0,
            action@ == trace(old(self).table()@, old(self)@, index, outcome).1,
    {
        proof {
            use_type_invariant(&*self);
        }
        let entry = self.table.entry(index);
        if self.trace {
            let line = trace_line(entry.name.as_str(), entry.decoder.params(), &self.args, outcome);
            self.phase = Phase::Trace { index, outcome };
            Action::Trace { line }
        } else {
            let result = match outcome {
                Ok(value) => Ok(entry.returns.map_output(value)),
                Err(trap) => Err(trap),
            };
            self.sync_out(result)
        }
    }

    fn mutation_guard(&mut self, index: usize) -> (action: Action)
        requires
            found(old(self).table()@, old(self)@, index),
            old(self)@.args.len() == old(self).table()@.entries[index as int].params.len(),
        ensures
            final(self).table() == old(self).table(),
            final(self)@ == mutation_guard(old(self).table()@, old(self)@, index).0,
            action@ == mutation_guard(old(self).table()@, old(self)@, index).1,
    {
        proof {
            use_type_invariant(&*self);
        }
        if self.table.entry(index).mutating && self.read_only {
            self.trace(index, Err(Trap::StateChangeDenied))
        } else {
            self.phase = Phase::Invoke { index };
            Action::Invoke { index, args: copy_args(&self.args) }
        }
    }

    fn decode(&mut self, index: usize) -> (action: Action)
        requires
            old(self)@.phase is GasSyncIn,
            found(old(self).table()@, old(self)@, index),
        ensures
            final(self).table() == old(self).table(),
            final(self)@ == decode(old(self).table()@, old(self)@, index).0,
            action@ == decode(old(self).table()@, old(self)@, index).1,
    {
        proof {
            use_type_invariant(&*self);
        }
        let decoder = &self.table.entry(index).decoder;
        if decoder.in_memory() {
            self.phase = Phase::Decode { index };
            Action::ReadMemory { address: self.registers[0], len: decoder.record_size() }
        } else {
            self.args = decoder.decode_registers(&self.registers);
            self.mutation_guard(index)
        }
    }

    fn decode_reply(&mut self, index: usize, reply: Option<Vec<u8>>) -> (action: Action)
        requires
            old(self)@.phase is Decode,
            found(old(self).table()@, old(self)@, index),
        ensures
            final(self).table() == old(self).table(),
            final(self)@ == decode_reply(
                old(self).table()@,
                old(self)@,
                index,
                Event::Memory(reply)@->Memory_0,
            ).0,
            action@ == decode_reply(
                old(self).table()@,
                old(self)@,
                index,
                Event::Memory(reply)@->Memory_0,
            ).1,
    {
        proof {
            use_type_invariant(&*self);
        }
        let decoded = match reply {
            Some(bytes) => self.table.entry(index).decoder.decode_record(bytes.as_slice()),
            None => Err(Trap::MemoryAccessFailure),
        };
        match decoded {
            Ok(args) => {
                self.args = args;
                self.mutation_guard(index)
            },
            Err(trap) => self.sync_out(Err(trap)),
        }
    }

    fn lookup(&mut self) -> (action: Action)
        requires
            old(self)@.phase is GasSyncIn,
        ensures
            final(self).table() == old(self).table(),
            final(self)@ == lookup(old(self).table()@, old(self)@).0,
            action@ == lookup(old(self).table()@, old(self)@).1,
    {
        proof {
            use_type_invariant(&*self);
        }
        match self.table.lookup(self.symbol.as_slice()) {
            None => self.sync_out(Err(Trap::InvalidSyscall)),
            Some(index) => self.decode(index),
        }
    }

    fn base_charge(&mut self) -> (action: Action)
        requires
            old(self)@.phase is GasSyncIn,
        ensures
            final(self).table() == old(self).table(),
            final(self)@ == base_charge(old(self).table()@, old(self)@).0,
            action@ == base_charge(old(self).table()@, old(self)@).1,
    {
        proof {
            use_type_invariant(&*self);
        }
        let mut meter = self.gas;
        match meter.charge(self.table.host_fn_cost()) {
            Err(trap) => self.sync_out(Err(trap)),
            Ok(()) => {
                self.gas = meter;
                self.lookup()
            },
        }
    }

    fn gas_sync_in(&mut self, register: i64) -> (action: Action)
        requires
            old(self)@.phase is GasSyncIn,
        ensures
            final(self).table() == old(self).table(),
            final(self)@ == gas_sync_in(old(self).table()@, old(self)@, register).0,
            action@ == gas_sync_in(old(self).table()@, old(self)@, register).1,
    {
        proof {
            use_type_invariant(&*self);
        }
        match GasMeter::sync_from_executor(register) {
            Err(trap) => {
                self.phase = Phase::Return;
                Action::Return { result: Err(trap) }
            },
            Ok(meter) => {
                self.gas = meter;
                self.base_charge()
            },
        }
    }

    /// Takes the call one step on: takes in what the surroundings report and
    /// says what they are to do next. An event that the call does not wait
    /// for changes nothing and gives `None`; so does any event once the call
    /// has returned.
    pub fn step(&mut self, event: Event) -> (action: Option<Action>)
        ensures
            final(self).table() == old(self).table(),
            match spec_step(old(self).table()@, old(self)@, event@) {
                Some((next, asked)) => {
                    &&& final(self)@ == next
                    &&& action matches Some(a)
                    &&& a@ == asked
                },
                None => final(self)@ == old(self)@ && action is None,
            },
    {
        proof {
            use_type_invariant(&*self);
        }
        if !self.expects(&event) {
            return None;
        }
        match (self.phase, event) {
            (Phase::GasSyncIn, Event::Gas(register)) => Some(self.gas_sync_in(register)),
            (Phase::Decode { index }, Event::Memory(reply)) => Some(
                self.decode_reply(index, reply),
            ),
            (Phase::Invoke { index }, Event::Handler(outcome)) => {
                let carried = match outcome {
                    Ok(value) => Ok(value),
                    Err(e) => Err(e.trap()),
                };
                Some(self.trace(index, carried))
            },
            (Phase::Trace { index, outcome }, Event::Traced(_)) => {
                let kind = self.table.entry(index).returns;
                let result = match outcome {
                    Ok(value) => Ok(kind.map_output(value)),
                    Err(trap) => Err(trap),
                };
                Some(self.sync_out(result))
            },
            (Phase::GasSyncOut { result }, Event::GasWritten) => {
                self.phase = Phase::Return;
                Some(Action::Return { result })
            },
            _ => None,
        }
    }
}

impl<'a, B> View for CallContext<'a, B> {
    type V = CallView;

    closed spec fn view(&self) -> CallView {
        CallView {
            symbol: self.symbol@,
            registers: self.registers@,
            read_only: self.read_only,
            trace: self.trace,
            gas_left: self.gas.spec_gas_left(),
            args: self.args@,
            phase: self.phase,
        }
    }
}

} // verus!
