//! Host function environments: definition, argument decoding and call dispatch.
//!
//! A guest program running inside a virtual machine asks its host for work by
//! naming a host function and passing arguments in registers or, when there are
//! too many, in a record in its own memory. This crate holds the host's side of
//! that boundary: the checks a set of host function definitions must pass, the
//! table they are dispatched from, the decoding of arguments, the gas bookkeeping
//! around a call, and the order in which the steps of a call run.
//!
//! - [`syntax`] holds a definition as it is written, [`hostfn`] and [`env`] check
//!   it function by function, and [`table`] builds the table from it.
//! - [`decoder`] lays out and decodes arguments, [`gas`] keeps the gas, [`trace`]
//!   writes the line of a traced call.
//! - [`dispatch`] takes a call through its steps. Reading the machine's registers
//!   and memory and running the function itself are left to the caller, who is
//!   told what to do next and reports back what came of it.
//! - [`call_laws`] and [`table_laws`] state and prove what holds of every call
//!   and of every table.

pub mod text;
pub mod abi;
pub mod syntax;
pub mod error;
pub mod hostfn;
pub mod decoder;
pub mod gas;
pub mod env;
pub mod table;
pub mod trace;
pub mod dispatch;
pub mod call_laws;
pub mod table_laws;
