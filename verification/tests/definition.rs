use hostfn_env::abi::ParamType;
use hostfn_env::decoder::{arg_decoder, param_type};
use hostfn_env::env::{unstable_hostfn, EnvDef};
use hostfn_env::error::DefinitionError;
use hostfn_env::hostfn::{
    is_valid_special_arg, return_kind, return_kind_of_name, HandlerValue, HostFn, HostFnReturn,
};
use hostfn_env::syntax::{
    Attribute, FnArg, GenericArgument, Item, ItemFn, ItemMod, Pat, PathArguments, PathSegment,
    ReturnType, Type, TypePath,
};
use hostfn_env::table::{define_env, expand_env, expand_func_list, expand_functions, EnvConfig};

fn segment(name: &str) -> PathSegment {
    PathSegment { ident: name.to_string(), arguments: PathArguments::Empty }
}

fn named(name: &str) -> Type {
    Type::Path(TypePath { leading_colon: false, segments: vec![segment(name)] })
}

fn unit() -> Type {
    Type::Tuple(Vec::new())
}

fn result_of(ok: Type, err: Type) -> ReturnType {
    let args = vec![GenericArgument::Type(ok), GenericArgument::Type(err)];
    ReturnType::Type(Type::Path(TypePath {
        leading_colon: false,
        segments: vec![PathSegment {
            ident: "Result".to_string(),
            arguments: PathArguments::AngleBracketed(args),
        }],
    }))
}

fn returning(ok: Type) -> ReturnType {
    result_of(ok, named("TrapReason"))
}

fn attr(name: &str) -> Attribute {
    Attribute { ident: Some(name.to_string()), argument: String::new() }
}

fn cfg(feature: &str) -> Attribute {
    Attribute { ident: Some("cfg".to_string()), argument: feature.to_string() }
}

fn receiver() -> FnArg {
    FnArg::Receiver { reference: true, mutability: true }
}

fn memory() -> FnArg {
    FnArg::Typed { pat: Pat::Ident("memory".to_string()), ty: Type::Reference }
}

fn param(name: &str, ty: &str) -> FnArg {
    FnArg::Typed { pat: Pat::Ident(name.to_string()), ty: named(ty) }
}

fn host_fn(name: &str, attrs: Vec<Attribute>, params: &[(&str, &str)], ok: Type) -> ItemFn<u32> {
    let mut inputs = vec![receiver(), memory()];
    for (n, t) in params {
        inputs.push(param(n, t));
    }
    ItemFn { attrs, ident: name.to_string(), inputs, output: returning(ok), block: 0 }
}

fn module(fns: Vec<ItemFn<u32>>) -> ItemMod<u32> {
    ItemMod { content: Some(fns.into_iter().map(Item::Fn).collect()) }
}

fn config(features: &[&str]) -> EnvConfig {
    EnvConfig { features: features.iter().map(|f| f.to_string()).collect(), host_fn_cost: 7 }
}

fn refusal(item: ItemFn<u32>) -> DefinitionError {
    HostFn::try_from(item).err().expect("the function is refused")
}

#[test]
fn try_from_reads_name_attributes_and_output() {
    let item = host_fn(
        "foo",
        vec![attr("doc"), attr("stable"), cfg("extra"), attr("mutating")],
        &[("key_ptr", "u32")],
        named("ReturnErrorCode"),
    );
    let f = HostFn::try_from(item).unwrap();
    assert_eq!(f.name, "foo");
    assert!(f.is_stable);
    assert!(f.mutating);
    assert_eq!(f.returns, HostFnReturn::ReturnCode);
    let guard = f.cfg.expect("the cfg attribute is kept");
    assert_eq!(guard.ident.as_deref(), Some("cfg"));
    assert_eq!(guard.argument, "extra");
    assert_eq!(f.item.ident, "foo");
    assert_eq!(f.item.attrs.len(), 4);
    assert_eq!(f.item.inputs.len(), 3);
}

#[test]
fn try_from_without_attributes_is_unstable_and_reading() {
    let f = HostFn::try_from(host_fn("bar", vec![], &[], unit())).unwrap();
    assert!(!f.is_stable);
    assert!(!f.mutating);
    assert!(f.cfg.is_none());
    assert_eq!(f.returns, HostFnReturn::Unit);
}

#[test]
fn try_from_knows_the_four_kinds() {
    let kinds = [
        (unit(), HostFnReturn::Unit),
        (named("u32"), HostFnReturn::U32),
        (named("u64"), HostFnReturn::U64),
        (named("ReturnErrorCode"), HostFnReturn::ReturnCode),
    ];
    for (ok, kind) in kinds {
        let f = HostFn::try_from(host_fn("f", vec![], &[], ok)).unwrap();
        assert_eq!(f.returns, kind);
    }
}

#[test]
fn try_from_refuses_attribute_that_is_no_identifier() {
    let odd = Attribute { ident: None, argument: String::new() };
    assert_eq!(
        refusal(host_fn("f", vec![attr("stable"), odd], &[], unit())),
        DefinitionError::AttributeNotIdent
    );
}

#[test]
fn try_from_refuses_repeated_attributes() {
    assert_eq!(
        refusal(host_fn("f", vec![attr("stable"), attr("stable")], &[], unit())),
        DefinitionError::DuplicateStable
    );
    assert_eq!(
        refusal(host_fn("f", vec![attr("mutating"), attr("doc"), attr("mutating")], &[], unit())),
        DefinitionError::DuplicateMutating
    );
    assert_eq!(
        refusal(host_fn("f", vec![cfg("a"), cfg("b")], &[], unit())),
        DefinitionError::DuplicateCfg
    );
}

#[test]
fn try_from_refuses_unsupported_attribute() {
    assert_eq!(
        refusal(host_fn("f", vec![attr("inline")], &[], unit())),
        DefinitionError::UnsupportedAttribute("inline".to_string())
    );
}

#[test]
fn try_from_reads_attributes_from_the_last() {
    // Both are at fault; the one that stands last is found first.
    assert_eq!(
        refusal(host_fn("f", vec![attr("inline"), attr("stable"), attr("stable")], &[], unit())),
        DefinitionError::DuplicateStable
    );
    assert_eq!(
        refusal(host_fn("f", vec![attr("stable"), attr("stable"), attr("inline")], &[], unit())),
        DefinitionError::UnsupportedAttribute("inline".to_string())
    );
}

#[test]
fn try_from_checks_attributes_before_inputs_before_output() {
    let mut item = host_fn("f", vec![attr("inline")], &[], unit());
    item.inputs.clear();
    item.output = ReturnType::Omitted;
    assert_eq!(refusal(item), DefinitionError::UnsupportedAttribute("inline".to_string()));
    let mut item = host_fn("f", vec![], &[], unit());
    item.inputs.clear();
    item.output = ReturnType::Omitted;
    assert_eq!(refusal(item), DefinitionError::InvalidSpecialArgs);
}

#[test]
fn try_from_refuses_wrong_leading_inputs() {
    let mut item = host_fn("f", vec![], &[], unit());
    item.inputs = vec![receiver()];
    assert_eq!(refusal(item), DefinitionError::InvalidSpecialArgs);
    let mut item = host_fn("f", vec![], &[], unit());
    item.inputs = vec![memory(), receiver()];
    assert_eq!(refusal(item), DefinitionError::InvalidSpecialArgs);
    let mut item = host_fn("f", vec![], &[], unit());
    item.inputs[0] = FnArg::Receiver { reference: true, mutability: false };
    assert_eq!(refusal(item), DefinitionError::InvalidSpecialArgs);
    let mut item = host_fn("f", vec![], &[], unit());
    item.inputs[1] = FnArg::Typed { pat: Pat::Ident("mem".to_string()), ty: Type::Reference };
    assert_eq!(refusal(item), DefinitionError::InvalidSpecialArgs);
    let mut item = host_fn("f", vec![], &[], unit());
    item.inputs[1] = FnArg::Typed { pat: Pat::Ident("memory".to_string()), ty: named("M") };
    assert_eq!(refusal(item), DefinitionError::InvalidSpecialArgs);
}

#[test]
fn special_args_are_told_by_position() {
    assert!(is_valid_special_arg(0, &receiver()));
    assert!(!is_valid_special_arg(1, &receiver()));
    assert!(is_valid_special_arg(1, &memory()));
    assert!(!is_valid_special_arg(0, &memory()));
    assert!(!is_valid_special_arg(2, &memory()));
    let underscored = FnArg::Typed { pat: Pat::Ident("_memory".to_string()), ty: Type::Reference };
    assert!(is_valid_special_arg(1, &underscored));
    let unnamed = FnArg::Typed { pat: Pat::Other, ty: Type::Reference };
    assert!(!is_valid_special_arg(1, &unnamed));
    assert!(!is_valid_special_arg(0, &FnArg::Receiver { reference: false, mutability: true }));
}

#[test]
fn return_kind_refuses_other_outputs() {
    assert_eq!(return_kind(&ReturnType::Omitted), None);
    assert_eq!(return_kind(&ReturnType::Type(named("u32"))), None);
    assert_eq!(return_kind(&ReturnType::Type(unit())), None);
    assert_eq!(return_kind(&returning(named("bool"))), None);
    assert_eq!(return_kind(&returning(named("i32"))), None);
    assert_eq!(return_kind(&returning(Type::Tuple(vec![named("u32")]))), None);
    assert_eq!(return_kind(&returning(Type::Reference)), None);
    assert_eq!(return_kind(&result_of(named("u32"), named("Error"))), None);
    assert_eq!(return_kind(&result_of(named("u32"), unit())), None);
    let one = ReturnType::Type(Type::Path(TypePath {
        leading_colon: false,
        segments: vec![PathSegment {
            ident: "Result".to_string(),
            arguments: PathArguments::AngleBracketed(vec![GenericArgument::Type(named("u32"))]),
        }],
    }));
    assert_eq!(return_kind(&one), None);
    let lifetime = ReturnType::Type(Type::Path(TypePath {
        leading_colon: false,
        segments: vec![PathSegment {
            ident: "Result".to_string(),
            arguments: PathArguments::AngleBracketed(vec![
                GenericArgument::Other,
                GenericArgument::Type(named("TrapReason")),
            ]),
        }],
    }));
    assert_eq!(return_kind(&lifetime), None);
    let bare = ReturnType::Type(named("Result"));
    assert_eq!(return_kind(&bare), None);
    let empty = ReturnType::Type(Type::Path(TypePath { leading_colon: false, segments: vec![] }));
    assert_eq!(return_kind(&empty), None);
}

#[test]
fn return_kind_looks_at_the_last_segment_of_the_output() {
    let qualified = ReturnType::Type(Type::Path(TypePath {
        leading_colon: true,
        segments: vec![
            segment("core"),
            segment("result"),
            PathSegment {
                ident: "Result".to_string(),
                arguments: PathArguments::AngleBracketed(vec![
                    GenericArgument::Type(named("u64")),
                    GenericArgument::Type(named("TrapReason")),
                ]),
            },
        ],
    }));
    assert_eq!(return_kind(&qualified), Some(HostFnReturn::U64));
    assert_eq!(return_kind_of_name("()"), Some(HostFnReturn::Unit));
    assert_eq!(return_kind_of_name("u32"), Some(HostFnReturn::U32));
    assert_eq!(return_kind_of_name("u8"), None);
    assert_eq!(return_kind_of_name(""), None);
}

#[test]
fn try_from_refuses_invalid_output() {
    let mut item = host_fn("f", vec![], &[], unit());
    item.output = returning(named("bool"));
    assert_eq!(refusal(item), DefinitionError::InvalidReturnType);
}

#[test]
fn map_output_widens() {
    assert_eq!(HostFnReturn::Unit.map_output(HandlerValue::Unit), None);
    assert_eq!(HostFnReturn::U32.map_output(HandlerValue::U32(u32::MAX)), Some(4294967295));
    assert_eq!(HostFnReturn::U64.map_output(HandlerValue::U64(u64::MAX)), Some(u64::MAX));
    assert_eq!(HostFnReturn::ReturnCode.map_output(HandlerValue::ReturnCode(3)), Some(3));
    assert_eq!(HandlerValue::ReturnCode(3).kind(), HostFnReturn::ReturnCode);
    assert_eq!(HandlerValue::Unit.widened(), 0);
}

#[test]
fn success_type_names_the_value() {
    assert!(matches!(HostFnReturn::Unit.success_type(), ReturnType::Omitted));
    for (kind, name) in [
        (HostFnReturn::U32, "u32"),
        (HostFnReturn::U64, "u64"),
        (HostFnReturn::ReturnCode, "ReturnErrorCode"),
    ] {
        match kind.success_type() {
            ReturnType::Type(Type::Path(path)) => {
                assert_eq!(path.get_ident().map(|s| s.as_str()), Some(name));
            },
            other => panic!("unexpected output {:?}", other),
        }
    }
}

#[test]
fn param_types_are_the_four_unsigned() {
    assert_eq!(param_type(&named("u8")), Ok(ParamType::U8));
    assert_eq!(param_type(&named("u16")), Ok(ParamType::U16));
    assert_eq!(param_type(&named("u32")), Ok(ParamType::U32));
    assert_eq!(param_type(&named("u64")), Ok(ParamType::U64));
    assert_eq!(param_type(&named("bool")), Err(DefinitionError::DisallowedParamType));
    assert_eq!(param_type(&named("i32")), Err(DefinitionError::DisallowedParamType));
    assert_eq!(param_type(&named("usize")), Err(DefinitionError::DisallowedParamType));
    assert_eq!(param_type(&Type::Reference), Err(DefinitionError::ParamTypeNotPath));
    assert_eq!(param_type(&unit()), Err(DefinitionError::ParamTypeNotPath));
    let qualified = Type::Path(TypePath {
        leading_colon: false,
        segments: vec![segment("core"), segment("u32")],
    });
    assert_eq!(param_type(&qualified), Err(DefinitionError::ParamTypeNotIdent));
    let rooted = Type::Path(TypePath { leading_colon: true, segments: vec![segment("u32")] });
    assert_eq!(param_type(&rooted), Err(DefinitionError::ParamTypeNotIdent));
}

#[test]
fn arg_decoder_takes_the_inputs_behind_the_first_two() {
    let item = host_fn("f", vec![], &[("a", "u8"), ("b", "u64")], unit());
    let decoder = arg_decoder(&item.inputs).unwrap();
    let params = decoder.params();
    assert_eq!(params.len(), 2);
    assert_eq!(params[0].name.as_deref(), Some("a"));
    assert_eq!(params[0].ty, ParamType::U8);
    assert_eq!(params[1].name.as_deref(), Some("b"));
    assert_eq!(params[1].ty, ParamType::U64);
    assert!(!decoder.in_memory());
}

#[test]
fn arg_decoder_passes_over_receivers_and_keeps_unnamed_parameters() {
    let inputs = vec![
        receiver(),
        memory(),
        receiver(),
        FnArg::Typed { pat: Pat::Other, ty: named("u16") },
    ];
    let decoder = arg_decoder(&inputs).unwrap();
    assert_eq!(decoder.params().len(), 1);
    assert_eq!(decoder.params()[0].name, None);
    assert_eq!(decoder.params()[0].ty, ParamType::U16);
}

#[test]
fn arg_decoder_reports_the_first_refused_parameter() {
    let inputs = vec![
        receiver(),
        memory(),
        param("a", "u32"),
        FnArg::Typed { pat: Pat::Ident("b".to_string()), ty: Type::Reference },
        param("c", "bool"),
    ];
    assert_eq!(arg_decoder(&inputs).err(), Some(DefinitionError::ParamTypeNotPath));
    let inputs = vec![receiver(), memory(), param("c", "bool"), param("b", "u32")];
    assert_eq!(arg_decoder(&inputs).err(), Some(DefinitionError::DisallowedParamType));
}

#[test]
fn env_def_takes_functions_in_order_and_passes_over_other_items() {
    let items = vec![
        Item::Other,
        Item::Fn(host_fn("first", vec![], &[], unit())),
        Item::Other,
        Item::Fn(host_fn("second", vec![attr("stable")], &[], named("u32"))),
    ];
    let def = EnvDef::try_from(ItemMod { content: Some(items) }).unwrap();
    assert_eq!(def.host_funcs.len(), 2);
    assert_eq!(def.host_funcs[0].name, "first");
    assert_eq!(def.host_funcs[1].name, "second");
    assert!(def.host_funcs[1].is_stable);
}

#[test]
fn env_def_refuses_module_without_body() {
    let module: ItemMod<u32> = ItemMod { content: None };
    assert_eq!(EnvDef::try_from(module).err(), Some(DefinitionError::ModuleNotInlined));
}

#[test]
fn env_def_reports_the_first_refused_function() {
    let mut bad_output = host_fn("b", vec![], &[], unit());
    bad_output.output = ReturnType::Omitted;
    let items = vec![
        host_fn("a", vec![], &[], unit()),
        bad_output,
        host_fn("c", vec![attr("stable"), attr("stable")], &[], unit()),
    ];
    assert_eq!(EnvDef::try_from(module(items)).err(), Some(DefinitionError::InvalidReturnType));
}

#[test]
fn empty_module_gives_empty_table() {
    let table = define_env("", module(vec![]), &config(&[])).unwrap();
    assert_eq!(table.len(), 0);
    assert!(table.list_syscalls(true).is_empty());
    assert!(table.list_syscalls(false).is_empty());
    assert_eq!(table.lookup(b"foo"), None);
    assert!(table.get(0).is_none());
    assert_eq!(table.host_fn_cost(), 7);
}

#[test]
fn define_env_takes_no_arguments() {
    let result = define_env("version = 2", module(vec![]), &config(&[]));
    assert_eq!(result.err(), Some(DefinitionError::UnexpectedArguments));
}

#[test]
fn define_env_refuses_module_without_body() {
    let module: ItemMod<u32> = ItemMod { content: None };
    assert_eq!(define_env("", module, &config(&[])).err(), Some(DefinitionError::ModuleNotInlined));
}

#[test]
fn disallowed_param_type_gives_no_table() {
    let fns = vec![
        host_fn("fine", vec![attr("stable")], &[("a", "u32")], unit()),
        host_fn("flag", vec![], &[("a", "u32"), ("on", "bool")], unit()),
    ];
    assert_eq!(
        define_env("", module(fns), &config(&[])).err(),
        Some(DefinitionError::DisallowedParamType)
    );
}

#[test]
fn disallowed_param_type_is_refused_in_a_function_that_is_not_built() {
    let fns = vec![host_fn("flag", vec![cfg("off")], &[("on", "bool")], unit())];
    assert_eq!(
        define_env("", module(fns), &config(&[])).err(),
        Some(DefinitionError::DisallowedParamType)
    );
}

#[test]
fn functions_are_refused_before_parameters() {
    let mut no_output = host_fn("late", vec![], &[], unit());
    no_output.output = ReturnType::Omitted;
    let fns = vec![host_fn("flag", vec![], &[("on", "bool")], unit()), no_output];
    assert_eq!(
        define_env("", module(fns), &config(&[])).err(),
        Some(DefinitionError::InvalidReturnType)
    );
}

#[test]
fn same_name_twice_is_refused() {
    let fns = vec![
        host_fn("foo", vec![], &[], unit()),
        host_fn("bar", vec![], &[], unit()),
        host_fn("foo", vec![attr("stable")], &[("a", "u8")], unit()),
    ];
    assert_eq!(
        define_env("", module(fns), &config(&[])).err(),
        Some(DefinitionError::DuplicateSymbol)
    );
}

#[test]
fn same_name_is_accepted_where_only_one_is_built() {
    let fns = vec![
        host_fn("foo", vec![cfg("old")], &[], unit()),
        host_fn("foo", vec![cfg("new")], &[("a", "u8")], named("u32")),
    ];
    let table = define_env("", module(fns), &config(&["new"])).unwrap();
    assert_eq!(table.len(), 1);
    let entry = table.get(0).unwrap();
    assert_eq!(entry.name, "foo");
    assert_eq!(entry.returns, HostFnReturn::U32);
    assert_eq!(entry.decoder.params().len(), 1);
}

#[test]
fn table_holds_the_functions_that_are_built_in_order() {
    let fns = vec![
        host_fn("a", vec![attr("stable")], &[], unit()),
        host_fn("b", vec![cfg("unstable-hostfn")], &[], unit()),
        host_fn("c", vec![attr("mutating"), cfg("extra")], &[], named("u64")),
        host_fn("d", vec![], &[], unit()),
    ];
    let def = EnvDef::try_from(module(fns)).unwrap();
    let entries = expand_functions(def, &config(&["extra"])).unwrap();
    let names: Vec<&str> = entries.iter().map(|e| e.name.as_str()).collect();
    assert_eq!(names, vec!["a", "c", "d"]);
    assert!(entries[0].is_stable && !entries[0].mutating);
    assert!(!entries[1].is_stable && entries[1].mutating);
    assert_eq!(entries[1].cfg.as_ref().map(|c| c.argument.as_str()), Some("extra"));
    assert_eq!(entries[1].returns, HostFnReturn::U64);
    assert_eq!(expand_func_list(&entries, true), vec![b"a".to_vec(), b"c".to_vec(), b"d".to_vec()]);
    assert_eq!(expand_func_list(&entries, false), vec![b"a".to_vec()]);
}

#[test]
fn handlers_stay_with_their_functions() {
    let mut first = host_fn("skipped", vec![cfg("off")], &[], unit());
    first.block = 11;
    let mut second = host_fn("kept", vec![], &[], unit());
    second.block = 22;
    let def = EnvDef::try_from(module(vec![first, second])).unwrap();
    let table = expand_env(def, &config(&[])).unwrap();
    assert_eq!(table.len(), 1);
    assert_eq!(table.get(0).unwrap().handler, 22);
    assert_eq!(table.entry(0).handler, 22);
}

#[test]
fn lookup_finds_functions_by_their_bytes() {
    let fns = vec![
        host_fn("foo", vec![], &[], unit()),
        host_fn("foobar", vec![], &[], unit()),
        host_fn("ba\u{e9}", vec![], &[], unit()),
    ];
    let table = define_env("", module(fns), &config(&[])).unwrap();
    assert_eq!(table.lookup(b"foo"), Some(0));
    assert_eq!(table.lookup(b"foobar"), Some(1));
    assert_eq!(table.lookup("ba\u{e9}".as_bytes()), Some(2));
    assert_eq!(table.lookup(b"fo"), None);
    assert_eq!(table.lookup(b"fooba"), None);
    assert_eq!(table.lookup(b""), None);
    assert_eq!(table.lookup(&[0xff, 0xfe]), None);
}

#[test]
fn disabled_function_is_unknown() {
    let fns = vec![host_fn("hidden", vec![cfg("unstable-hostfn")], &[], unit())];
    let table = define_env("", module(fns), &config(&[])).unwrap();
    assert_eq!(table.lookup(b"hidden"), None);
    assert!(table.list_syscalls(true).is_empty());
}

#[test]
fn stable_names_are_a_subsequence_of_all_names() {
    let fns = vec![
        host_fn("a", vec![], &[], unit()),
        host_fn("b", vec![attr("stable")], &[], unit()),
        host_fn("c", vec![], &[], unit()),
        host_fn("d", vec![attr("stable")], &[], unit()),
        host_fn("e", vec![attr("stable")], &[], unit()),
    ];
    let table = define_env("", module(fns), &config(&[])).unwrap();
    let all = table.list_syscalls(true).clone();
    let stable = table.list_syscalls(false).clone();
    assert_eq!(
        all,
        vec![b"a".to_vec(), b"b".to_vec(), b"c".to_vec(), b"d".to_vec(), b"e".to_vec()]
    );
    assert_eq!(stable, vec![b"b".to_vec(), b"d".to_vec(), b"e".to_vec()]);
    let mut at = 0;
    for name in &stable {
        while all[at] != *name {
            at += 1;
        }
        at += 1;
    }
    assert!(stable.len() < all.len());
}

#[test]
fn one_more_unstable_function_lengthens_all_names_only() {
    let base = || {
        vec![
            host_fn("a", vec![attr("stable")], &[], unit()),
            host_fn("b", vec![], &[], unit()),
        ]
    };
    let before = define_env("", module(base()), &config(&[])).unwrap();
    let mut more = base();
    more.push(host_fn("c", vec![], &[], unit()));
    let after = define_env("", module(more), &config(&[])).unwrap();
    assert_eq!(after.list_syscalls(true).len(), before.list_syscalls(true).len() + 1);
    assert_eq!(after.list_syscalls(true)[2], b"c".to_vec());
    assert_eq!(after.list_syscalls(false), before.list_syscalls(false));
}

#[test]
fn all_stable_lists_are_equal() {
    let fns = vec![
        host_fn("a", vec![attr("stable")], &[], unit()),
        host_fn("b", vec![attr("stable")], &[], unit()),
    ];
    let table = define_env("", module(fns), &config(&[])).unwrap();
    assert_eq!(table.list_syscalls(true), table.list_syscalls(false));
}

#[test]
fn config_enables_by_feature() {
    let c = config(&["a", "b"]);
    assert!(c.enables(&None));
    assert!(c.enables(&Some(cfg("b"))));
    assert!(!c.enables(&Some(cfg("c"))));
    assert!(!config(&[]).enables(&Some(cfg(""))));
}

#[test]
fn unstable_hostfn_puts_its_attributes_first() {
    let item = host_fn("f", vec![attr("doc"), attr("mutating")], &[("a", "u8")], unit());
    let marked = unstable_hostfn(item);
    assert_eq!(marked.attrs.len(), 4);
    assert_eq!(marked.attrs[0].ident.as_deref(), Some("cfg"));
    assert_eq!(marked.attrs[0].argument, "unstable-hostfn");
    assert_eq!(marked.attrs[1].ident.as_deref(), Some("cfg_attr"));
    assert_eq!(marked.attrs[1].argument, "docsrs, doc(cfg(feature = \"unstable-hostfn\"))");
    assert_eq!(marked.attrs[2].ident.as_deref(), Some("doc"));
    assert_eq!(marked.attrs[3].ident.as_deref(), Some("mutating"));
    assert_eq!(marked.ident, "f");
    assert_eq!(marked.inputs.len(), 3);
    assert_eq!(marked.block, 0);
}

#[test]
fn attribute_duplicate_is_equal() {
    let a = cfg("x");
    let b = a.duplicate();
    assert_eq!(b.ident, a.ident);
    assert_eq!(b.argument, a.argument);
    let odd = Attribute { ident: None, argument: "y".to_string() };
    assert_eq!(odd.duplicate().ident, None);
    assert_eq!(odd.duplicate().argument, "y");
}

#[test]
fn messages_say_what_is_wrong() {
    assert_eq!(
        DefinitionError::DuplicateStable.message(),
        "Invalid host function definition.\n#[stable] can only be specified once"
    );
    assert_eq!(
        DefinitionError::DuplicateMutating.message(),
        "Invalid host function definition.\n#[mutating] can only be specified once"
    );
    assert_eq!(
        DefinitionError::DuplicateCfg.message(),
        "Invalid host function definition.\n#[cfg] can only be specified once"
    );
    assert_eq!(
        DefinitionError::AttributeNotIdent.message(),
        "Invalid host function definition.\nOnly #[stable], #[cfg] and #[mutating] attributes are allowed."
    );
    assert_eq!(
        DefinitionError::UnsupportedAttribute("inline".to_string()).message(),
        "Invalid host function definition.\nUnsupported attribute \"inline\". Only #[stable], #[cfg] and #[mutating] attributes are allowed."
    );
    assert_eq!(
        DefinitionError::InvalidSpecialArgs.message(),
        "Invalid host function definition.\nEvery function must start with these two parameters: &mut self, memory: &mut M"
    );
    assert!(DefinitionError::InvalidReturnType
        .message()
        .starts_with("Invalid host function definition.\nShould return one of the following:\n"));
    assert!(DefinitionError::InvalidReturnType.message().ends_with("- Result<u64, TrapReason>"));
    assert_eq!(
        DefinitionError::ModuleNotInlined.message(),
        "Invalid environment definition, expected `mod` to be inlined."
    );
    assert!(DefinitionError::UnexpectedArguments
        .message()
        .starts_with("Invalid `define_env` attribute macro: expected no attributes:"));
    assert_eq!(DefinitionError::ParamTypeNotPath.message(), "Type needs to be path");
    assert_eq!(DefinitionError::ParamTypeNotIdent.message(), "Type needs to be ident");
    assert_eq!(
        DefinitionError::DisallowedParamType.message(),
        "Only primitive unsigned integers are allowed as arguments to syscalls"
    );
    assert_eq!(DefinitionError::DuplicateSymbol.message(), "Two host functions have the same name");
    assert_eq!(
        DefinitionError::RecordTooLarge.message(),
        "The arguments need a record too large to address"
    );
}
