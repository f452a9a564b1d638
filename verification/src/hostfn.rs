//! A host function definition, checked.

use vstd::prelude::*;
use vstd::string::StringExecFns;
use crate::error::{DefinitionError, DefinitionErrorView};
use crate::syntax::{
    Attribute, FnArg, GenericArgument, ItemFn, Pat, PathArguments, PathSegment, ReturnType, Type,
    TypePath,
};
use crate::text::str_eq;

verus! {

/// The kind of value a host function hands back on success.
#[derive(Clone, Copy, Debug, PartialEq, Eq, Structural)]
pub enum HostFnReturn {
    /// Nothing.
    Unit,
    /// A `u32`.
    U32,
    /// A `u64`.
    U64,
    /// A return code: a value of an enumeration, passed as its number.
    ReturnCode,
}

/// What a host function hands back when it succeeds.
#[derive(Clone, Copy, Debug, PartialEq, Eq, Structural)]
pub enum HandlerValue {
    Unit,
    U32(u32),
    U64(u64),
    /// A return code, as its number.
    ReturnCode(u32),
}

impl HandlerValue {
    /// The kind of the value.
    pub open spec fn spec_kind(self) -> HostFnReturn {
        match self {
            HandlerValue::Unit => HostFnReturn::Unit,
            HandlerValue::U32(_) => HostFnReturn::U32,
            HandlerValue::U64(_) => HostFnReturn::U64,
            HandlerValue::ReturnCode(_) => HostFnReturn::ReturnCode,
        }
    }

    /// The value as a number; for no value, 0.
    pub open spec fn spec_widened(self) -> u64 {
        match self {
            HandlerValue::Unit => 0,
            HandlerValue::U32(v) => v as u64,
            HandlerValue::U64(v) => v,
            HandlerValue::ReturnCode(code) => code as u64,
        }
    }

    /// The kind of the value.
    pub fn kind(self) -> (kind: HostFnReturn)
        ensures
            kind == self.spec_kind(),
    {
        match self {
            HandlerValue::Unit => HostFnReturn::Unit,
            HandlerValue::U32(_) => HostFnReturn::U32,
            HandlerValue::U64(_) => HostFnReturn::U64,
            HandlerValue::ReturnCode(_) => HostFnReturn::ReturnCode,
        }
    }

    /// The value as a number; for no value, 0.
    pub fn widened(self) -> (v: u64)
        ensures
            v == self.spec_widened(),
    {
        match self {
            HandlerValue::Unit => 0,
            HandlerValue::U32(v) => v as u64,
            HandlerValue::U64(v) => v,
            HandlerValue::ReturnCode(code) => code as u64,
        }
    }
}

impl HostFnReturn {
    /// What the executor is handed for a value of this kind: nothing for
    /// `Unit`, else the value as a number.
    pub open spec fn spec_map_output(self, value: HandlerValue) -> Option<u64> {
        match self {
            HostFnReturn::Unit => None,
            _ => Some(value.spec_widened()),
        }
    }

    /// The type of a value of this kind, as it is written; for `Unit`, none.
    pub open spec fn spec_success_type(self) -> Option<Seq<char>> {
        match self {
            HostFnReturn::Unit => None,
            HostFnReturn::U32 => Some("u32"@),
            HostFnReturn::U64 => Some("u64"@),
            HostFnReturn::ReturnCode => Some("ReturnErrorCode"@),
        }
    }

    /// The output of a function that succeeds with a value of this kind and
    /// cannot fail: no output for `Unit`, else the type of the value.
    pub fn success_type(&self) -> (output: ReturnType)
        ensures
            match self.spec_success_type() {
                None => output is Omitted,
                Some(name) => {
                    &&& output matches ReturnType::Type(Type::Path(path))
                    &&& path.spec_get_ident() == Some(name)
                },
            },
    {
        let name = match self {
            HostFnReturn::Unit => {
                return ReturnType::Omitted;
            },
            HostFnReturn::U32 => "u32",
            HostFnReturn::U64 => "u64",
            HostFnReturn::ReturnCode => "ReturnErrorCode",
        };
        let mut segments: Vec<PathSegment> = Vec::new();
        segments.push(PathSegment { ident: String::from_str(name), arguments: PathArguments::Empty });
        ReturnType::Type(Type::Path(TypePath { leading_colon: false, segments }))
    }

    /// What the executor is handed for a value of this kind.
    pub fn map_output(&self, value: HandlerValue) -> (out: Option<u64>)
        ensures
            out == self.spec_map_output(value),
    {
        match self {
            HostFnReturn::Unit => None,
            _ => Some(value.widened()),
        }
    }
}

/// A host function whose definition passed the checks.
#[derive(Debug)]
pub struct HostFn<B> {
    /// The definition as it was written.
    pub item: ItemFn<B>,
    /// Whether the function belongs to the stable interface.
    pub is_stable: bool,
    /// Whether the function changes state, and so is refused in a read-only call.
    pub mutating: bool,
    /// The name under which guests import the function.
    pub name: String,
    /// The kind of value it returns.
    pub returns: HostFnReturn,
    /// The `cfg` attribute that guards it, if it has one.
    pub cfg: Option<Attribute>,
}

/// What the attributes read so far have said.
pub struct AttrFlags {
    pub is_stable: bool,
    pub mutating: bool,
    /// The position of the `cfg` attribute.
    pub cfg: Option<int>,
}

/// What a definition that passes the checks says of its function.
pub struct Signature {
    pub is_stable: bool,
    pub mutating: bool,
    /// The position of the `cfg` attribute among the function's attributes.
    pub cfg: Option<int>,
    pub returns: HostFnReturn,
}

/// Documentation attributes are passed over.
pub open spec fn is_doc(attr: Attribute) -> bool {
    attr.ident matches Some(name) && name@ == "doc"@
}

/// Reads the attribute at `index`, after those behind it gave `flags`.
pub open spec fn read_attr(attr: Attribute, index: int, flags: AttrFlags) -> Result<
    AttrFlags,
    DefinitionErrorView,
> {
    if is_doc(attr) {
        Ok(flags)
    } else {
        match attr.ident {
            None => Err(DefinitionErrorView::AttributeNotIdent),
            Some(name) => if name@ == "stable"@ {
                if flags.is_stable {
                    Err(DefinitionErrorView::DuplicateStable)
                } else {
                    Ok(AttrFlags { is_stable: true, ..flags })
                }
            } else if name@ == "mutating"@ {
                if flags.mutating {
                    Err(DefinitionErrorView::DuplicateMutating)
                } else {
                    Ok(AttrFlags { mutating: true, ..flags })
                }
            } else if name@ == "cfg"@ {
                if flags.cfg is Some {
                    Err(DefinitionErrorView::DuplicateCfg)
                } else {
                    Ok(AttrFlags { cfg: Some(index), ..flags })
                }
            } else {
                Err(DefinitionErrorView::UnsupportedAttribute(name@))
            },
        }
    }
}

/// Reads the first `n` attributes, the last of them first, after those behind
/// them gave `flags`. The first attribute found at fault decides the error.
pub open spec fn read_attrs(attrs: Seq<Attribute>, n: nat, flags: AttrFlags) -> Result<
    AttrFlags,
    DefinitionErrorView,
>
    decreases n,
{
    if n == 0 {
        Ok(flags)
    } else {
        match read_attr(attrs[n - 1], n - 1, flags) {
            Ok(next) => read_attrs(attrs, (n - 1) as nat, next),
            Err(e) => Err(e),
        }
    }
}

/// Whether `arg` may stand at position `idx` of a host function's inputs: first
/// `&mut self`, then the guest memory, named `memory` or `_memory` and taken by
/// reference.
pub open spec fn spec_is_valid_special_arg(idx: int, arg: FnArg) -> bool {
    match arg {
        FnArg::Receiver { reference, mutability } => idx == 0 && reference && mutability,
        FnArg::Typed { pat, ty } => {
            &&& idx == 1
            &&& pat matches Pat::Ident(name)
            &&& (name@ == "memory"@ || name@ == "_memory"@)
            &&& ty is Reference
        },
    }
}

/// Whether the inputs start with the two that every host function takes.
pub open spec fn has_special_args(inputs: Seq<FnArg>) -> bool {
    &&& inputs.len() >= 2
    &&& spec_is_valid_special_arg(0, inputs[0])
    &&& spec_is_valid_special_arg(1, inputs[1])
}

/// The name by which a success type is told apart: the first identifier of a
/// path, or `()` for the empty tuple.
pub open spec fn ok_type_name(ty: Type) -> Option<Seq<char>> {
    match ty {
        Type::Path(path) => if path.segments@.len() > 0 {
            Some(path.segments@[0].ident@)
        } else {
            None
        },
        Type::Tuple(elems) => if elems@.len() == 0 {
            Some("()"@)
        } else {
            None
        },
        _ => None,
    }
}

/// The kind of value that a success type of this name stands for.
pub open spec fn kind_of_name(name: Seq<char>) -> Option<HostFnReturn> {
    if name == "()"@ {
        Some(HostFnReturn::Unit)
    } else if name == "u32"@ {
        Some(HostFnReturn::U32)
    } else if name == "u64"@ {
        Some(HostFnReturn::U64)
    } else if name == "ReturnErrorCode"@ {
        Some(HostFnReturn::ReturnCode)
    } else {
        None
    }
}

/// Whether a generic argument is a path type that starts with `TrapReason`.
pub open spec fn is_trap_reason(arg: GenericArgument) -> bool {
    &&& arg matches GenericArgument::Type(Type::Path(path))
    &&& path.segments@.len() > 0
    &&& path.segments@[0].ident@ == "TrapReason"@
}

/// The kind of value a function with this output returns, where the output is
/// a path that ends in `Result` with two arguments, the second `TrapReason` and
/// the first `()`, `u32`, `u64` or `ReturnErrorCode`.
pub open spec fn spec_return_kind(output: ReturnType) -> Option<HostFnReturn> {
    match output {
        ReturnType::Type(Type::Path(path)) => {
            if path.segments@.len() == 0 {
                None
            } else {
                let last = path.segments@[path.segments@.len() - 1];
                if last.ident@ != "Result"@ {
                    None
                } else {
                    match last.arguments {
                        PathArguments::AngleBracketed(args) => {
                            if args@.len() != 2 || !is_trap_reason(args@[1]) {
                                None
                            } else {
                                match args@[0] {
                                    GenericArgument::Type(ok) => match ok_type_name(ok) {
                                        Some(name) => kind_of_name(name),
                                        None => None,
                                    },
                                    _ => None,
                                }
                            }
                        },
                        _ => None,
                    }
                }
            }
        },
        _ => None,
    }
}

/// The checks on one function, in the order in which they are made: the
/// attributes, the two leading inputs, the output.
pub open spec fn check_item<B>(item: ItemFn<B>) -> Result<Signature, DefinitionErrorView> {
    match read_attrs(
        item.attrs@,
        item.attrs@.len(),
        AttrFlags { is_stable: false, mutating: false, cfg: None },
    ) {
        Err(e) => Err(e),
        Ok(flags) => if !has_special_args(item.inputs@) {
            Err(DefinitionErrorView::InvalidSpecialArgs)
        } else {
            match spec_return_kind(item.output) {
                None => Err(DefinitionErrorView::InvalidReturnType),
                Some(kind) => Ok(
                    Signature {
                        is_stable: flags.is_stable,
                        mutating: flags.mutating,
                        cfg: flags.cfg,
                        returns: kind,
                    },
                ),
            }
        },
    }
}

/// The host function that a definition of this signature gives: the item
/// itself, under its own name, with what its attributes and its output say.
pub open spec fn spec_host_fn<B>(item: ItemFn<B>, sig: Signature) -> HostFn<B> {
    HostFn {
        item,
        is_stable: sig.is_stable,
        mutating: sig.mutating,
        name: item.ident,
        returns: sig.returns,
        cfg: match sig.cfg {
            Some(k) => Some(item.attrs@[k]),
            None => None,
        },
    }
}

/// Whether `arg` may stand at position `idx` of a host function's inputs.
pub fn is_valid_special_arg(idx: usize, arg: &FnArg) -> (valid: bool)
    ensures
        valid == spec_is_valid_special_arg(idx as int, *arg),
{
    match arg {
        FnArg::Receiver { reference, mutability } => idx == 0 && *reference && *mutability,
        FnArg::Typed { pat, ty } => {
            if idx != 1 {
                return false;
            }
            let named = match pat {
                Pat::Ident(name) => str_eq(name.as_str(), "memory") || str_eq(
                    name.as_str(),
                    "_memory",
                ),
                Pat::Other => false,
            };
            if !named {
                return false;
            }
            matches!(ty, Type::Reference)
        },
    }
}

/// The kind of value that a success type of this name stands for.
pub fn return_kind_of_name(name: &str) -> (kind: Option<HostFnReturn>)
    ensures
        kind == kind_of_name(name@),
{
    if str_eq(name, "()") {
        Some(HostFnReturn::Unit)
    } else if str_eq(name, "u32") {
        Some(HostFnReturn::U32)
    } else if str_eq(name, "u64") {
        Some(HostFnReturn::U64)
    } else if str_eq(name, "ReturnErrorCode") {
        Some(HostFnReturn::ReturnCode)
    } else {
        None
    }
}

/// Whether a generic argument is a path type that starts with `TrapReason`.
fn names_trap_reason(arg: &GenericArgument) -> (yes: bool)
    ensures
        yes == is_trap_reason(*arg),
{
    match arg {
        GenericArgument::Type(Type::Path(path)) => path.segments.len() > 0 && str_eq(
            path.segments[0].ident.as_str(),
            "TrapReason",
        ),
        _ => false,
    }
}

/// The kind of value that a success type stands for.
fn success_kind(arg: &GenericArgument) -> (kind: Option<HostFnReturn>)
    ensures
        kind == match *arg {
            GenericArgument::Type(ok) => match ok_type_name(ok) {
                Some(name) => kind_of_name(name),
                None => None,
            },
            _ => None,
        },
{
    match arg {
        GenericArgument::Type(Type::Path(path)) => {
            if path.segments.len() > 0 {
                return_kind_of_name(path.segments[0].ident.as_str())
            } else {
                None
            }
        },
        GenericArgument::Type(Type::Tuple(elems)) => {
            if elems.len() == 0 {
                return_kind_of_name("()")
            } else {
                None
            }
        },
        _ => None,
    }
}

/// The kind of value a function with this output returns, if the output has
/// one of the permitted forms.
pub fn return_kind(output: &ReturnType) -> (kind: Option<HostFnReturn>)
    ensures
        kind == spec_return_kind(*output),
{
    match output {
        ReturnType::Type(Type::Path(path)) => {
            let n = path.segments.len();
            if n == 0 {
                return None;
            }
            let last = &path.segments[n - 1];
            if !str_eq(last.ident.as_str(), "Result") {
                return None;
            }
            match &last.arguments {
                PathArguments::AngleBracketed(args) => {
                    if args.len() != 2 || !names_trap_reason(&args[1]) {
                        None
                    } else {
                        success_kind(&args[0])
                    }
                },
                _ => None,
            }
        },
        _ => None,
    }
}

impl<B> HostFn<B> {
    /// Whether this host function is what the checks make of `item`: the item
    /// itself, with what its attributes and its output say.
    pub open spec fn checked_from(self, item: ItemFn<B>) -> bool {
        &&& check_item(item) matches Ok(sig)
        &&& self == spec_host_fn(item, sig)
        &&& sig.cfg matches Some(k) ==> 0 <= k < item.attrs@.len()
    }

    /// Checks a function as written and, if it passes, takes it as a host
    /// function.
    ///
    /// The attributes are read from the last to the first; `doc` is passed over,
    /// `stable`, `mutating` and `cfg` may each stand once, and any other is
    /// refused. The inputs must start with `&mut self` and the guest memory. The
    /// output must be a `Result` of `()`, `u32`, `u64` or `ReturnErrorCode` and
    /// `TrapReason`. The first check that fails decides the error.
    pub fn try_from(item: ItemFn<B>) -> (result: Result<HostFn<B>, DefinitionError>)
        ensures
            match result {
                Ok(f) => f.checked_from(item),
                Err(e) => check_item(item) == Err::<Signature, DefinitionErrorView>(e@),
            },
    {
        let mut is_stable = false;
        let mut mutating = false;
        let mut cfg: Option<Attribute> = None;
        let ghost mut cfg_at: Option<int> = None;
        let mut i: usize = item.attrs.len();
        while i > 0
            invariant
                i <= item.attrs@.len(),
                read_attrs(
                    item.attrs@,
                    item.attrs@.len(),
                    AttrFlags { is_stable: false, mutating: false, cfg: None },
                ) == read_attrs(
                    item.attrs@,
                    i as nat,
                    AttrFlags { is_stable, mutating, cfg: cfg_at },
                ),
                match cfg_at {
                    Some(k) => 0 <= k < item.attrs@.len() && cfg == Some(item.attrs@[k]),
                    None => cfg is None,
                },
            decreases i,
        {
            i -= 1;
            let attr = &item.attrs[i];
            match &attr.ident {
                None => {
                    return Err(DefinitionError::AttributeNotIdent);
                },
                Some(name) => {
                    if str_eq(name.as_str(), "doc") {
                    } else if str_eq(name.as_str(), "stable") {
                        if is_stable {
                            return Err(DefinitionError::DuplicateStable);
                        }
                        is_stable = true;
                    } else if str_eq(name.as_str(), "mutating") {
                        if mutating {
                            return Err(DefinitionError::DuplicateMutating);
                        }
                        mutating = true;
                    } else if str_eq(name.as_str(), "cfg") {
                        if cfg.is_some() {
                            return Err(DefinitionError::DuplicateCfg);
                        }
                        cfg = Some(attr.duplicate());
                        proof {
                            cfg_at = Some(i as int);
                        }
                    } else {
                        return Err(DefinitionError::UnsupportedAttribute(name.clone()));
                    }
                },
            }
        }
        let special = item.inputs.len() >= 2 && is_valid_special_arg(0, &item.inputs[0])
            && is_valid_special_arg(1, &item.inputs[1]);
        if !special {
            return Err(DefinitionError::InvalidSpecialArgs);
        }
        let kind = match return_kind(&item.output) {
            Some(kind) => kind,
            None => {
                return Err(DefinitionError::InvalidReturnType);
            },
        };
        let name = item.ident.clone();
        Ok(HostFn { item, is_stable, mutating, name, returns: kind, cfg })
    }
}

} // verus!
