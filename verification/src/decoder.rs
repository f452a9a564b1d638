//! Decoding the arguments of a call.
//!
//! A function with at most [`ALLOWED_REGISTERS`] parameters takes one argument
//! from each register, cut down to the parameter's type. A function with more
//! takes them from a record in guest memory, whose address the first register
//! holds: the fields stand in the order of the parameters, each at the next
//! offset that is a multiple of its width, and the record's size is a multiple
//! of its widest field. Fields are little-endian.

use vstd::prelude::*;
use crate::abi::{ArgValue, ParamType, Trap, ALLOWED_REGISTERS};
use crate::error::{DefinitionError, DefinitionErrorView};
use crate::syntax::{FnArg, Pat, Type};

verus! {

/// A parameter of a host function.
#[derive(Debug)]
pub struct Param {
    /// The parameter's name, where it is bound by a plain name.
    pub name: Option<String>,
    pub ty: ParamType,
}

/// A parameter, with its name as a sequence of characters.
pub struct ParamView {
    pub name: Option<Seq<char>>,
    pub ty: ParamType,
}

impl View for Param {
    type V = ParamView;

    open spec fn view(&self) -> ParamView {
        ParamView {
            name: match self.name {
                Some(name) => Some(name@),
                None => None,
            },
            ty: self.ty,
        }
    }
}

/// The parameters of a list, each by its view.
pub open spec fn params_view(params: Seq<Param>) -> Seq<ParamView> {
    params.map_values(|p: Param| p@)
}

/// The types of a list of parameters.
pub open spec fn param_types(params: Seq<ParamView>) -> Seq<ParamType> {
    params.map_values(|p: ParamView| p.ty)
}

/// The type of a parameter that is written as `ty`: a path of the single
/// identifier `u8`, `u16`, `u32` or `u64`.
pub open spec fn spec_param_type(ty: Type) -> Result<ParamType, DefinitionErrorView> {
    match ty {
        Type::Path(path) => match path.spec_get_ident() {
            Some(name) => match ParamType::spec_from_name(name) {
                Some(t) => Ok(t),
                None => Err(DefinitionErrorView::DisallowedParamType),
            },
            None => Err(DefinitionErrorView::ParamTypeNotIdent),
        },
        _ => Err(DefinitionErrorView::ParamTypeNotPath),
    }
}

/// The name that a pattern binds, if it is a plain name.
pub open spec fn pat_name(pat: Pat) -> Option<Seq<char>> {
    match pat {
        Pat::Ident(name) => Some(name@),
        Pat::Other => None,
    }
}

/// The parameters of a function with these inputs: the typed inputs behind
/// the two that every host function starts with, or the reason for which the
/// first parameter at fault is refused.
pub open spec fn spec_params(inputs: Seq<FnArg>) -> Result<Seq<ParamView>, DefinitionErrorView> {
    params_upto(inputs, inputs.len() as int)
}

/// The parameters among the first `n` inputs of a function: the typed inputs
/// behind the two that every host function starts with. The first parameter
/// whose type is refused decides the error.
pub open spec fn params_upto(inputs: Seq<FnArg>, n: int) -> Result<
    Seq<ParamView>,
    DefinitionErrorView,
>
    decreases n,
{
    if n <= 2 {
        Ok(Seq::empty())
    } else {
        match params_upto(inputs, n - 1) {
            Err(e) => Err(e),
            Ok(params) => match inputs[n - 1] {
                FnArg::Receiver { .. } => Ok(params),
                FnArg::Typed { pat, ty } => match spec_param_type(ty) {
                    Ok(t) => Ok(params.push(ParamView { name: pat_name(pat), ty: t })),
                    Err(e) => Err(e),
                },
            },
        }
    }
}

/// The least multiple of `align` that is not below `offset`.
pub open spec fn align_up(offset: nat, align: nat) -> nat {
    if offset % align == 0 {
        offset
    } else {
        (offset + align - offset % align) as nat
    }
}

/// The offset of field `i` in the record of these types.
pub open spec fn field_offset(types: Seq<ParamType>, i: int) -> nat
    decreases i,
{
    if i <= 0 {
        0
    } else {
        align_up(
            field_offset(types, i - 1) + types[i - 1].spec_size(),
            types[i].spec_size(),
        )
    }
}

/// The offset behind field `i` in the record of these types.
pub open spec fn field_end(types: Seq<ParamType>, i: int) -> nat {
    if i < 0 {
        0
    } else {
        field_offset(types, i) + types[i].spec_size()
    }
}

/// The widest of the first `n` fields, and 1 if there is none.
pub open spec fn record_align(types: Seq<ParamType>, n: int) -> nat
    decreases n,
{
    if n <= 0 {
        1
    } else {
        let rest = record_align(types, n - 1);
        if types[n - 1].spec_size() > rest {
            types[n - 1].spec_size()
        } else {
            rest
        }
    }
}

/// The size in bytes of the record of these types.
pub open spec fn record_size(types: Seq<ParamType>) -> nat {
    align_up(field_end(types, types.len() - 1), record_align(types, types.len() as int))
}

/// The number that `width` bytes from `start` on stand for, the first byte
/// counting least.
pub open spec fn le_value(bytes: Seq<u8>, start: int, width: nat) -> nat
    decreases width,
{
    if width == 0 {
        0
    } else {
        bytes[start] as nat + 256 * le_value(bytes, start + 1, (width - 1) as nat)
    }
}

/// The arguments that the registers hold for parameters of these types.
pub open spec fn spec_decode_registers(types: Seq<ParamType>, regs: Seq<u64>) -> Seq<ArgValue> {
    Seq::new(types.len(), |i: int| types[i].spec_truncate(regs[i] as int))
}

/// The arguments that a record holds for parameters of these types.
pub open spec fn spec_decode_record(types: Seq<ParamType>, bytes: Seq<u8>) -> Seq<ArgValue> {
    Seq::new(
        types.len(),
        |i: int|
            types[i].spec_truncate(
                le_value(bytes, field_offset(types, i) as int, types[i].spec_size()) as int,
            ),
    )
}

/// What the checks on a function's inputs give: its parameters, or the reason
/// for which they are refused.
pub open spec fn spec_arg_decoder(inputs: Seq<FnArg>) -> Result<
    Seq<ParamView>,
    DefinitionErrorView,
> {
    match spec_params(inputs) {
        Err(e) => Err(e),
        Ok(params) => if record_size(param_types(params)) > usize::MAX {
            Err(DefinitionErrorView::RecordTooLarge)
        } else {
            Ok(params)
        },
    }
}

/// `256` to the power of `n`.
pub open spec fn pow256(n: nat) -> nat
    decreases n,
{
    if n == 0 {
        1
    } else {
        256 * pow256((n - 1) as nat)
    }
}

/// Aligning moves an offset up, by less than the alignment.
pub proof fn lemma_align_up_bounds(offset: nat, align: nat)
    requires
        align > 0,
    ensures
        offset <= align_up(offset, align) < offset + align,
        align_up(offset, align) % align == 0,
{
    assert(0 <= offset % align < align) by (nonlinear_arith)
        requires
            align > 0,
    ;
    if offset % align != 0 {
        let r = offset % align;
        assert((offset + align - r) % (align as int) == 0) by (nonlinear_arith)
            requires
                align > 0,
                r == offset % align,
        ;
    }
}

/// The fields of a record do not overlap and lie inside it: each ends where
/// the next can start, and the last ends inside the record's size.
pub proof fn lemma_fields_in_record(types: Seq<ParamType>, i: int)
    requires
        0 <= i < types.len(),
    ensures
        field_end(types, i - 1) <= field_offset(types, i),
        field_offset(types, i) % types[i].spec_size() == 0,
        field_end(types, i) <= record_size(types),
    decreases types.len() - i,
{
    lemma_align_up_bounds(field_end(types, i - 1), types[i].spec_size());
    if i == 0 {
        assert(field_offset(types, 0) == 0);
        assert(0nat % types[0].spec_size() == 0);
    }
    if i + 1 < types.len() {
        lemma_fields_in_record(types, i + 1);
    } else {
        lemma_record_align_positive(types, types.len() as int);
        lemma_align_up_bounds(field_end(types, i), record_align(types, types.len() as int));
    }
}

/// The alignment of a record is one of the four widths.
pub proof fn lemma_record_align_positive(types: Seq<ParamType>, n: int)
    ensures
        record_align(types, n) == 1 || record_align(types, n) == 2 || record_align(types, n) == 4
            || record_align(types, n) == 8,
    decreases n,
{
    if n > 0 {
        lemma_record_align_positive(types, n - 1);
    }
}

/// A number of `width` bytes is below `256` to the power of `width`.
pub proof fn lemma_le_value_bound(bytes: Seq<u8>, start: int, width: nat)
    ensures
        le_value(bytes, start, width) < pow256(width),
    decreases width,
{
    if width > 0 {
        lemma_le_value_bound(bytes, start + 1, (width - 1) as nat);
    }
}

/// The powers of `256` up to the eighth.
pub proof fn lemma_pow256_values()
    ensures
        pow256(0) == 1,
        pow256(1) == 0x100,
        pow256(2) == 0x1_0000,
        pow256(3) == 0x100_0000,
        pow256(4) == 0x1_0000_0000,
        pow256(5) == 0x100_0000_0000,
        pow256(6) == 0x1_0000_0000_0000,
        pow256(7) == 0x100_0000_0000_0000,
        pow256(8) == 0x1_0000_0000_0000_0000,
{
    reveal_with_fuel(pow256, 9);
}

/// How the arguments of one host function are decoded: its parameters and
/// the layout of the record that holds them when they are passed in memory.
#[derive(Debug)]
pub struct ArgDecoder {
    params: Vec<Param>,
    offsets: Vec<usize>,
    size: usize,
}

impl View for ArgDecoder {
    type V = Seq<ParamView>;

    /// The parameters that the decoder was made for.
    closed spec fn view(&self) -> Seq<ParamView> {
        params_view(self.params@)
    }
}

/// The type of a parameter that is written as `ty`.
pub fn param_type(ty: &Type) -> (result: Result<ParamType, DefinitionError>)
    ensures
        match result {
            Ok(t) => spec_param_type(*ty) == Ok::<ParamType, DefinitionErrorView>(t),
            Err(e) => spec_param_type(*ty) == Err::<ParamType, DefinitionErrorView>(e@),
        },
{
    match ty {
        Type::Path(path) => match path.get_ident() {
            Some(name) => match ParamType::from_name(name.as_str()) {
                Some(t) => Ok(t),
                None => Err(DefinitionError::DisallowedParamType),
            },
            None => Err(DefinitionError::ParamTypeNotIdent),
        },
        _ => Err(DefinitionError::ParamTypeNotPath),
    }
}

/// The next multiple of `align` from `offset` on, if it can be addressed.
fn align_to(offset: usize, align: usize) -> (aligned: Option<usize>)
    requires
        align > 0,
    ensures
        match aligned {
            Some(a) => a == align_up(offset as nat, align as nat),
            None => align_up(offset as nat, align as nat) > usize::MAX,
        },
{
    let rem = offset % align;
    if rem == 0 {
        Some(offset)
    } else {
        let pad = align - rem;
        if offset > usize::MAX - pad {
            None
        } else {
            Some(offset + pad)
        }
    }
}

/// The number that `width` bytes of `buf` from `start` on stand for.
fn read_le(buf: &[u8], start: usize, width: usize) -> (value: u64)
    requires
        width <= 8,
        start + width <= buf@.len(),
    ensures
        value == le_value(buf@, start as int, width as nat),
{
    let len = buf.len();
    let mut acc: u64 = 0;
    let mut k: usize = width;
    while k > 0
        invariant
            k <= width <= 8,
            start + width <= buf@.len() == len,
            acc == le_value(buf@, start + k, (width - k) as nat),
        decreases k,
    {
        proof {
            lemma_le_value_bound(buf@, start + k, (width - k) as nat);
            lemma_pow256_values();
        }
        k -= 1;
        acc = acc * 256 + buf[start + k] as u64;
    }
    acc
}

impl ArgDecoder {
    #[verifier::type_invariant]
    spec fn laid_out(self) -> bool {
        let types = param_types(params_view(self.params@));
        &&& self.offsets@.len() == types.len()
        &&& forall|i: int| 0 <= i < types.len() ==> self.offsets@[i] == field_offset(types, i)
        &&& self.size == record_size(types)
    }

    /// The types of the parameters.
    pub open spec fn types(self) -> Seq<ParamType> {
        param_types(self@)
    }

    /// Whether the arguments are passed in guest memory.
    pub open spec fn spec_in_memory(self) -> bool {
        self@.len() > ALLOWED_REGISTERS
    }

    /// The parameters that the decoder was made for.
    pub fn params(&self) -> (params: &Vec<Param>)
        ensures
            params_view(params@) == self@,
    {
        &self.params
    }

    /// Whether the arguments are passed in guest memory: whether there are
    /// more parameters than registers.
    pub fn in_memory(&self) -> (yes: bool)
        ensures
            yes == self.spec_in_memory(),
    {
        self.params.len() > ALLOWED_REGISTERS
    }

    /// The size in bytes of the record that holds the arguments when they
    /// are passed in memory.
    pub fn record_size(&self) -> (size: usize)
        ensures
            size == record_size(self.types()),
    {
        proof {
            use_type_invariant(self);
        }
        self.size
    }

    /// Takes the arguments from the registers: argument `i` is register `i`,
    /// cut down to the type of parameter `i`. Guest memory plays no part.
    pub fn decode_registers(&self, regs: &[u64; 6]) -> (args: Vec<ArgValue>)
        requires
            !self.spec_in_memory(),
        ensures
            args@ == spec_decode_registers(self.types(), regs@),
    {
        let n = self.params.len();
        let mut args: Vec<ArgValue> = Vec::new();
        let mut i: usize = 0;
        while i < n
            invariant
                i <= n <= 6,
                n == self.params@.len(),
                args@.len() == i,
                forall|k: int|
                    0 <= k < i ==> args@[k] == self.types()[k].spec_truncate(regs@[k] as int),
            decreases n - i,
        {
            let arg = self.params[i].ty.truncate(regs[i]);
            args.push(arg);
            i += 1;
        }
        assert(args@ =~= spec_decode_registers(self.types(), regs@));
        args
    }

    /// Takes the arguments from the record that was read from guest memory.
    /// A record of another size than [`ArgDecoder::record_size`] is a failed
    /// read: no part of it is decoded.
    pub fn decode_record(&self, buf: &[u8]) -> (result: Result<Vec<ArgValue>, Trap>)
        ensures
            match result {
                Ok(args) => {
                    &&& buf@.len() == record_size(self.types())
                    &&& args@ == spec_decode_record(self.types(), buf@)
                },
                Err(trap) => {
                    &&& buf@.len() != record_size(self.types())
                    &&& trap == Trap::MemoryAccessFailure
                },
            },
    {
        proof {
            use_type_invariant(self);
        }
        if buf.len() != self.size {
            return Err(Trap::MemoryAccessFailure);
        }
        let n = self.params.len();
        let mut args: Vec<ArgValue> = Vec::new();
        let mut i: usize = 0;
        while i < n
            invariant
                i <= n,
                n == self.params@.len(),
                self.laid_out(),
                buf@.len() == self.size,
                args@.len() == i,
                forall|k: int|
                    0 <= k < i ==> args@[k] == self.types()[k].spec_truncate(
                        le_value(
                            buf@,
                            field_offset(self.types(), k) as int,
                            self.types()[k].spec_size(),
                        ) as int,
                    ),
            decreases n - i,
        {
            proof {
                lemma_fields_in_record(self.types(), i as int);
            }
            let ty = self.params[i].ty;
            let value = read_le(buf, self.offsets[i], ty.size());
            args.push(ty.truncate(value));
            i += 1;
        }
        assert(args@ =~= spec_decode_record(self.types(), buf@));
        Ok(args)
    }
}

/// The layout of the record of these parameters: the offset of each field and
/// the size of the whole, if it can be addressed.
fn record_layout(params: &Vec<Param>) -> (layout: Option<(Vec<usize>, usize)>)
    ensures
        match layout {
            Some((offsets, size)) => {
                let types = param_types(params_view(params@));
                &&& offsets@.len() == types.len()
                &&& forall|i: int| 0 <= i < types.len() ==> offsets@[i] == field_offset(types, i)
                &&& size == record_size(types)
            },
            None => record_size(param_types(params_view(params@))) > usize::MAX,
        },
{
    let ghost types = param_types(params_view(params@));
    let n = params.len();
    let mut offsets: Vec<usize> = Vec::new();
    let mut end: usize = 0;
    let mut align: usize = 1;
    let mut i: usize = 0;
    while i < n
        invariant
            i <= n,
            n == params@.len(),
            types == param_types(params_view(params@)),
            offsets@.len() == i,
            forall|k: int| 0 <= k < i ==> offsets@[k] == field_offset(types, k),
            end == field_end(types, i - 1),
            align == record_align(types, i as int),
        decreases n - i,
    {
        proof {
            lemma_fields_in_record(types, i as int);
        }
        let width = params[i].ty.size();
        let offset = match align_to(end, width) {
            Some(offset) => offset,
            None => {
                return None;
            },
        };
        if offset > usize::MAX - width {
            return None;
        }
        end = offset + width;
        offsets.push(offset);
        if width > align {
            align = width;
        }
        i += 1;
    }
    proof {
        lemma_record_align_positive(types, n as int);
    }
    match align_to(end, align) {
        Some(size) => Some((offsets, size)),
        None => None,
    }
}

/// Reads the parameters of a host function from its inputs and lays out the
/// record that holds its arguments when they are passed in memory.
///
/// The parameters are the typed inputs behind the first two. Each must be of
/// type `u8`, `u16`, `u32` or `u64`, written as a single identifier: the first
/// that is not decides the error.
pub fn arg_decoder(inputs: &Vec<FnArg>) -> (result: Result<ArgDecoder, DefinitionError>)
    ensures
        match result {
            Ok(decoder) => spec_arg_decoder(inputs@) == Ok::<Seq<ParamView>, DefinitionErrorView>(
                decoder@,
            ),
            Err(e) => spec_arg_decoder(inputs@) == Err::<Seq<ParamView>, DefinitionErrorView>(e@),
        },
{
    let n = inputs.len();
    let mut params: Vec<Param> = Vec::new();
    let mut i: usize = 2;
    assert(params_view(params@) =~= Seq::empty());
    while i < n
        invariant
            2 <= i,
            i <= n || n < 2,
            n == inputs@.len(),
            params_upto(inputs@, if i <= n { i as int } else { n as int }) == Ok::<
                Seq<ParamView>,
                DefinitionErrorView,
            >(params_view(params@)),
        decreases n - i,
    {
        match &inputs[i] {
            FnArg::Receiver { .. } => {},
            FnArg::Typed { pat, ty } => {
                let t = match param_type(ty) {
                    Ok(t) => t,
                    Err(e) => {
                        proof {
                            lemma_params_error_stays(inputs@, i as int + 1, n as int);
                        }
                        return Err(e);
                    },
                };
                let name = match pat {
                    Pat::Ident(name) => Some(name.clone()),
                    Pat::Other => None,
                };
                let ghost before = params@;
                params.push(Param { name, ty: t });
                assert(params_view(params@) =~= params_view(before).push(
                    ParamView { name: pat_name(*pat), ty: t },
                ));
            },
        }
        i += 1;
    }
    match record_layout(&params) {
        Some((offsets, size)) => Ok(ArgDecoder { params, offsets, size }),
        None => Err(DefinitionError::RecordTooLarge),
    }
}

/// Once a parameter is refused, the inputs behind it change nothing.
pub proof fn lemma_params_error_stays(inputs: Seq<FnArg>, m: int, n: int)
    requires
        m <= n,
        params_upto(inputs, m) is Err,
    ensures
        params_upto(inputs, n) == params_upto(inputs, m),
    decreases n - m,
{
    if m < n {
        lemma_params_error_stays(inputs, m, n - 1);
    }
}


} // verus!
