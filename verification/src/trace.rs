//! The line that a traced call leaves behind.
//!
//! A line names the function, gives each named argument as `name: value`, and
//! ends with the outcome: `foo(key_ptr: 10, val_len: 5) = Ok(())`, followed by a
//! line feed. Numbers are written in decimal.

use core::fmt::Write;
use vstd::prelude::*;
use vstd::utf8::{encode_utf8, is_ascii_chars_encode_utf8};
use crate::abi::{ArgValue, Trap};
use crate::decoder::{params_view, Param, ParamView};
use crate::hostfn::HandlerValue;

verus! {

/// `sp_std::Writer`, a target for formatted text that collects it in memory.
/// What it holds is known through [`written`] alone.
#[verifier::external_type_specification]
#[verifier::external_body]
pub struct ExWriter(sp_std::Writer);

/// The bytes that an `sp_std::Writer` holds: all that has been written to
/// it, in the order in which it was written.
pub uninterp spec fn written(w: sp_std::Writer) -> Seq<u8>;

/// `sp_std::Writer::default`: a writer to which nothing has been written.
#[verifier::external_body]
fn writer_new() -> (w: sp_std::Writer)
    ensures
        written(w) == Seq::<u8>::empty(),
{
    sp_std::Writer::default()
}

/// `sp_std::Writer`'s `core::fmt::Write::write_str`: puts the bytes of `s`
/// behind those that the writer holds. It does not fail.
#[verifier::external_body]
fn write_str(w: &mut sp_std::Writer, s: &str)
    ensures
        written(*final(w)) == written(*old(w)) + encode_utf8(s@),
{
    let _ = w.write_str(s);
}

/// `sp_std::Writer::into_inner`: the bytes that have been written.
#[verifier::external_body]
fn writer_into_inner(w: sp_std::Writer) -> (bytes: Vec<u8>)
    ensures
        bytes@ == written(w),
{
    w.into_inner()
}

/// The decimal digits of `n`, as ASCII.
pub open spec fn decimal(n: nat) -> Seq<u8>
    decreases n,
{
    if n < 10 {
        seq![(48 + n) as u8]
    } else {
        decimal(n / 10).push((48 + n % 10) as u8)
    }
}

/// How many of the first `n` parameters have a name.
pub open spec fn named_count(params: Seq<ParamView>, n: int) -> nat
    decreases n,
{
    if n <= 0 {
        0
    } else if params[n - 1].name is Some {
        named_count(params, n - 1) + 1
    } else {
        named_count(params, n - 1)
    }
}

/// The arguments as a line gives them.
pub open spec fn trace_args(params: Seq<ParamView>, args: Seq<ArgValue>) -> Seq<u8> {
    trace_args_upto(params, args, params.len() as int)
}

/// The first `n` arguments as a line gives them: each that has a name as
/// `name: value`, with `, ` between them.
pub open spec fn trace_args_upto(params: Seq<ParamView>, args: Seq<ArgValue>, n: int) -> Seq<u8>
    decreases n,
{
    if n <= 0 {
        Seq::empty()
    } else {
        let before = trace_args_upto(params, args, n - 1);
        match params[n - 1].name {
            None => before,
            Some(name) => {
                let sep = if named_count(params, n - 1) > 0 {
                    encode_utf8(", "@)
                } else {
                    Seq::empty()
                };
                before + sep + encode_utf8(name) + encode_utf8(": "@) + decimal(
                    args[n - 1].spec_value(),
                )
            },
        }
    }
}

/// A trap as a line gives it.
pub open spec fn trace_trap(trap: Trap) -> Seq<u8> {
    match trap {
        Trap::InvalidSyscall => encode_utf8("InvalidSyscall"@),
        Trap::OutOfGas => encode_utf8("OutOfGas"@),
        Trap::StateChangeDenied => encode_utf8("StateChangeDenied"@),
        Trap::MemoryAccessFailure => encode_utf8("MemoryAccessFailure"@),
        Trap::HandlerError(code) => encode_utf8("HandlerError("@) + decimal(code as nat)
            + encode_utf8(")"@),
    }
}

/// An outcome as a line gives it.
pub open spec fn trace_outcome(outcome: Result<HandlerValue, Trap>) -> Seq<u8> {
    match outcome {
        Ok(HandlerValue::Unit) => encode_utf8("Ok(())"@),
        Ok(value) => encode_utf8("Ok("@) + decimal(value.spec_widened() as nat) + encode_utf8(
            ")"@,
        ),
        Err(trap) => encode_utf8("Err("@) + trace_trap(trap) + encode_utf8(")"@),
    }
}

/// The line for a call of the function `name`.
pub open spec fn spec_trace_line(
    name: Seq<char>,
    params: Seq<ParamView>,
    args: Seq<ArgValue>,
    outcome: Result<HandlerValue, Trap>,
) -> Seq<u8> {
    encode_utf8(name) + encode_utf8("("@) + trace_args(params, args)
        + encode_utf8(") = "@) + trace_outcome(outcome) + encode_utf8("\n"@)
}

/// The digit `d`, as text.
fn digit(d: u64) -> (text: &'static str)
    requires
        d < 10,
    ensures
        encode_utf8(text@) == seq![(48 + d) as u8],
{
    let text = match d {
        0 => "0",
        1 => "1",
        2 => "2",
        3 => "3",
        4 => "4",
        5 => "5",
        6 => "6",
        7 => "7",
        8 => "8",
        _ => "9",
    };
    proof {
        reveal_strlit("0");
        reveal_strlit("1");
        reveal_strlit("2");
        reveal_strlit("3");
        reveal_strlit("4");
        reveal_strlit("5");
        reveal_strlit("6");
        reveal_strlit("7");
        reveal_strlit("8");
        reveal_strlit("9");
        assert(text@.len() == 1);
        assert(text@[0] as u8 == 48 + d);
        is_ascii_chars_encode_utf8(text@);
        assert(encode_utf8(text@) =~= seq![(48 + d) as u8]);
    }
    text
}

/// Writes `value` in decimal.
fn write_u64(w: &mut sp_std::Writer, value: u64)
    ensures
        written(*final(w)) == written(*old(w)) + decimal(value as nat),
    decreases value,
{
    let ghost start = written(*w);
    if value >= 10 {
        write_u64(w, value / 10);
    }
    write_str(w, digit(value % 10));
    assert(written(*w) =~= start + decimal(value as nat));
}

/// Writes a trap as a line gives it.
fn write_trap(w: &mut sp_std::Writer, trap: Trap)
    ensures
        written(*final(w)) == written(*old(w)) + trace_trap(trap),
{
    match trap {
        Trap::InvalidSyscall => write_str(w, "InvalidSyscall"),
        Trap::OutOfGas => write_str(w, "OutOfGas"),
        Trap::StateChangeDenied => write_str(w, "StateChangeDenied"),
        Trap::MemoryAccessFailure => write_str(w, "MemoryAccessFailure"),
        Trap::HandlerError(code) => {
            let ghost start = written(*w);
            write_str(w, "HandlerError(");
            write_u64(w, code as u64);
            write_str(w, ")");
            assert(written(*w) =~= start + trace_trap(trap));
        },
    }
}

/// Writes an outcome as a line gives it.
fn write_outcome(w: &mut sp_std::Writer, outcome: Result<HandlerValue, Trap>)
    ensures
        written(*final(w)) == written(*old(w)) + trace_outcome(outcome),
{
    let ghost start = written(*w);
    match outcome {
        Ok(HandlerValue::Unit) => write_str(w, "Ok(())"),
        Ok(value) => {
            write_str(w, "Ok(");
            write_u64(w, value.widened());
            write_str(w, ")");
        },
        Err(trap) => {
            write_str(w, "Err(");
            write_trap(w, trap);
            write_str(w, ")");
        },
    }
    assert(written(*w) =~= start + trace_outcome(outcome));
}

/// The line for a call of the function `name` with these arguments and this
/// outcome. Arguments whose parameter has no name are left out.
pub fn trace_line(
    name: &str,
    params: &Vec<Param>,
    args: &Vec<ArgValue>,
    outcome: Result<HandlerValue, Trap>,
) -> (line: Vec<u8>)
    requires
        args@.len() == params@.len(),
    ensures
        line@ == spec_trace_line(name@, params_view(params@), args@, outcome),
{
    let ghost views = params_view(params@);
    let mut w = writer_new();
    write_str(&mut w, name);
    write_str(&mut w, "(");
    let ghost head = written(w);
    let mut named: usize = 0;
    let mut i: usize = 0;
    while i < params.len()
        invariant
            i <= params@.len(),
            args@.len() == params@.len(),
            views == params_view(params@),
            named == named_count(views, i as int),
            named <= i,
            written(w) == head + trace_args_upto(views, args@, i as int),
        decreases params@.len() - i,
    {
        let ghost before = written(w);
        match &params[i].name {
            None => {},
            Some(param) => {
                if named > 0 {
                    write_str(&mut w, ", ");
                }
                write_str(&mut w, param.as_str());
                write_str(&mut w, ": ");
                write_u64(&mut w, args[i].value());
                named += 1;
                assert(written(w) =~= head + trace_args_upto(views, args@, i as int + 1));
            },
        }
        i += 1;
    }
    let ghost body = written(w);
    write_str(&mut w, ") = ");
    write_outcome(&mut w, outcome);
    write_str(&mut w, "\n");
    assert(written(w) =~= spec_trace_line(name@, views, args@, outcome));
    writer_into_inner(w)
}

} // verus!
