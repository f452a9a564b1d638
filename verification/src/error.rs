//! Why a definition is refused.

use vstd::prelude::*;
use vstd::string::StringExecFns;

verus! {

/// The reasons for which an environment definition is refused. Every one of
/// them is found while the environment is built, before a call can be made.
#[derive(Debug, Clone, PartialEq, Eq)]
pub enum DefinitionError {
    /// The definition was given arguments of its own; it takes none.
    UnexpectedArguments,
    /// The module has no body to read the functions from.
    ModuleNotInlined,
    /// An attribute's path is not a single identifier.
    AttributeNotIdent,
    /// `stable` is written twice.
    DuplicateStable,
    /// `mutating` is written twice.
    DuplicateMutating,
    /// `cfg` is written twice.
    DuplicateCfg,
    /// An attribute other than `stable`, `mutating`, `cfg` and `doc`.
    UnsupportedAttribute(String),
    /// The function does not start with `&mut self` and the guest memory.
    InvalidSpecialArgs,
    /// The output is not a `Result` of a permitted kind and `TrapReason`.
    InvalidReturnType,
    /// A parameter's type is not a path.
    ParamTypeNotPath,
    /// A parameter's type is a path, but not a single identifier.
    ParamTypeNotIdent,
    /// A parameter's type is not `u8`, `u16`, `u32` or `u64`.
    DisallowedParamType,
    /// Two functions that are both built have the same name.
    DuplicateSymbol,
    /// The parameters of a function need a record too large to address.
    RecordTooLarge,
}

/// A definition error with its text as a sequence of characters.
pub enum DefinitionErrorView {
    UnexpectedArguments,
    ModuleNotInlined,
    AttributeNotIdent,
    DuplicateStable,
    DuplicateMutating,
    DuplicateCfg,
    UnsupportedAttribute(Seq<char>),
    InvalidSpecialArgs,
    InvalidReturnType,
    ParamTypeNotPath,
    ParamTypeNotIdent,
    DisallowedParamType,
    DuplicateSymbol,
    RecordTooLarge,
}

impl View for DefinitionError {
    type V = DefinitionErrorView;

    open spec fn view(&self) -> DefinitionErrorView {
        match *self {
            DefinitionError::UnexpectedArguments => DefinitionErrorView::UnexpectedArguments,
            DefinitionError::ModuleNotInlined => DefinitionErrorView::ModuleNotInlined,
            DefinitionError::AttributeNotIdent => DefinitionErrorView::AttributeNotIdent,
            DefinitionError::DuplicateStable => DefinitionErrorView::DuplicateStable,
            DefinitionError::DuplicateMutating => DefinitionErrorView::DuplicateMutating,
            DefinitionError::DuplicateCfg => DefinitionErrorView::DuplicateCfg,
            DefinitionError::UnsupportedAttribute(name) => DefinitionErrorView::UnsupportedAttribute(
                name@,
            ),
            DefinitionError::InvalidSpecialArgs => DefinitionErrorView::InvalidSpecialArgs,
            DefinitionError::InvalidReturnType => DefinitionErrorView::InvalidReturnType,
            DefinitionError::ParamTypeNotPath => DefinitionErrorView::ParamTypeNotPath,
            DefinitionError::ParamTypeNotIdent => DefinitionErrorView::ParamTypeNotIdent,
            DefinitionError::DisallowedParamType => DefinitionErrorView::DisallowedParamType,
            DefinitionError::DuplicateSymbol => DefinitionErrorView::DuplicateSymbol,
            DefinitionError::RecordTooLarge => DefinitionErrorView::RecordTooLarge,
        }
    }
}

/// What every refusal of a function starts with.
pub open spec fn host_fn_prefix() -> Seq<char> {
    "Invalid host function definition.\n"@
}

/// The attributes that a host function may have.
pub open spec fn allowed_attributes() -> Seq<char> {
    "Only #[stable], #[cfg] and #[mutating] attributes are allowed."@
}

/// The text of an error.
pub open spec fn spec_message(error: DefinitionErrorView) -> Seq<char> {
    match error {
        DefinitionErrorView::UnexpectedArguments =>
            "Invalid `define_env` attribute macro: expected no attributes:\n\t\t\t\t\t - `#[define_env]`"@,
        DefinitionErrorView::ModuleNotInlined =>
            "Invalid environment definition, expected `mod` to be inlined."@,
        DefinitionErrorView::AttributeNotIdent => host_fn_prefix() + allowed_attributes(),
        DefinitionErrorView::DuplicateStable => host_fn_prefix()
            + "#[stable] can only be specified once"@,
        DefinitionErrorView::DuplicateMutating => host_fn_prefix()
            + "#[mutating] can only be specified once"@,
        DefinitionErrorView::DuplicateCfg => host_fn_prefix()
            + "#[cfg] can only be specified once"@,
        DefinitionErrorView::UnsupportedAttribute(name) => host_fn_prefix()
            + "Unsupported attribute \""@ + name + "\". "@ + allowed_attributes(),
        DefinitionErrorView::InvalidSpecialArgs => host_fn_prefix()
            + "Every function must start with these two parameters: &mut self, memory: &mut M"@,
        DefinitionErrorView::InvalidReturnType => host_fn_prefix()
            + "Should return one of the following:\n\t\t\t\t- Result<(), TrapReason>,\n\t\t\t\t- Result<ReturnErrorCode, TrapReason>,\n\t\t\t\t- Result<u32, TrapReason>,\n\t\t\t\t- Result<u64, TrapReason>"@,
        DefinitionErrorView::ParamTypeNotPath => "Type needs to be path"@,
        DefinitionErrorView::ParamTypeNotIdent => "Type needs to be ident"@,
        DefinitionErrorView::DisallowedParamType =>
            "Only primitive unsigned integers are allowed as arguments to syscalls"@,
        DefinitionErrorView::DuplicateSymbol => "Two host functions have the same name"@,
        DefinitionErrorView::RecordTooLarge => "The arguments need a record too large to address"@,
    }
}

impl DefinitionError {
    /// The text of the error, for whoever wrote the definition.
    pub fn message(&self) -> (text: String)
        ensures
            text@ == spec_message(self@),
    {
        let prefix = String::from_str("Invalid host function definition.\n");
        let allowed = "Only #[stable], #[cfg] and #[mutating] attributes are allowed.";
        match self {
            DefinitionError::UnexpectedArguments => String::from_str(
                "Invalid `define_env` attribute macro: expected no attributes:\n\t\t\t\t\t - `#[define_env]`",
            ),
            DefinitionError::ModuleNotInlined => String::from_str(
                "Invalid environment definition, expected `mod` to be inlined.",
            ),
            DefinitionError::AttributeNotIdent => prefix.concat(allowed),
            DefinitionError::DuplicateStable => prefix.concat(
                "#[stable] can only be specified once",
            ),
            DefinitionError::DuplicateMutating => prefix.concat(
                "#[mutating] can only be specified once",
            ),
            DefinitionError::DuplicateCfg => prefix.concat("#[cfg] can only be specified once"),
            DefinitionError::UnsupportedAttribute(name) => prefix.concat(
                "Unsupported attribute \"",
            ).concat(name.as_str()).concat("\". ").concat(allowed),
            DefinitionError::InvalidSpecialArgs => prefix.concat(
                "Every function must start with these two parameters: &mut self, memory: &mut M",
            ),
            DefinitionError::InvalidReturnType => prefix.concat(
                "Should return one of the following:\n\t\t\t\t- Result<(), TrapReason>,\n\t\t\t\t- Result<ReturnErrorCode, TrapReason>,\n\t\t\t\t- Result<u32, TrapReason>,\n\t\t\t\t- Result<u64, TrapReason>",
            ),
            DefinitionError::ParamTypeNotPath => String::from_str("Type needs to be path"),
            DefinitionError::ParamTypeNotIdent => String::from_str("Type needs to be ident"),
            DefinitionError::DisallowedParamType => String::from_str(
                "Only primitive unsigned integers are allowed as arguments to syscalls",
            ),
            DefinitionError::DuplicateSymbol => String::from_str(
                "Two host functions have the same name",
            ),
            DefinitionError::RecordTooLarge => String::from_str(
                "The arguments need a record too large to address",
            ),
        }
    }
}


} // verus!
