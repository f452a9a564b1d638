//! What holds of every definition and of every table.

use vstd::prelude::*;
use crate::decoder::{params_upto, spec_arg_decoder, spec_param_type};
use crate::env::{fn_items, module_refusal, spec_host_fns};
use crate::hostfn::{is_doc, read_attr, read_attrs, AttrFlags, HostFn};
use crate::syntax::{Attribute, FnArg, ItemMod};
use crate::table::{
    expand_upto, func_list_upto, has_name, spec_define_env, spec_descriptor, spec_expand, spec_func_list, symbol_of, DescriptorView, EnvConfig,
};

verus! {

/// Whether `at` gives, for each element of `a` in turn, a place in `b` where
/// it stands, each place behind the one before.
pub open spec fn embeds(a: Seq<Seq<u8>>, b: Seq<Seq<u8>>, at: Seq<int>) -> bool {
    &&& at.len() == a.len()
    &&& forall|i: int| 0 <= i < a.len() ==> 0 <= #[trigger] at[i] < b.len() && a[i] == b[at[i]]
    &&& forall|i: int, j: int| 0 <= i < j < a.len() ==> #[trigger] at[i] < #[trigger] at[j]
}

/// Whether `a` is what is left of `b` when some of its elements are taken
/// out: the elements of `a` stand in `b`, in the same order.
pub open spec fn is_subsequence(a: Seq<Seq<u8>>, b: Seq<Seq<u8>>) -> bool {
    exists|at: Seq<int>| embeds(a, b, at)
}

/// The places of the stable functions among the first `n` of `entries`.
pub open spec fn stable_places<B>(entries: Seq<DescriptorView<B>>, n: int) -> Seq<int>
    decreases n,
{
    if n <= 0 {
        Seq::empty()
    } else if entries[n - 1].is_stable {
        stable_places(entries, n - 1).push(n - 1)
    } else {
        stable_places(entries, n - 1)
    }
}

/// A parameter that is refused makes the parameters as a whole refused.
pub proof fn lemma_bad_param_refused(inputs: Seq<FnArg>, k: int, n: int)
    requires
        2 <= k < n,
        inputs[k] matches FnArg::Typed { ty, .. } && spec_param_type(ty) is Err,
    ensures
        params_upto(inputs, n) is Err,
    decreases n,
{
    if k < n - 1 {
        lemma_bad_param_refused(inputs, k, n - 1);
    }
}

/// A function whose parameters are refused makes the table refused.
pub proof fn lemma_bad_function_refused<B>(fns: Seq<HostFn<B>>, config: EnvConfig, f: int, n: int)
    requires
        0 <= f < n,
        spec_descriptor(fns[f]) is Err,
    ensures
        expand_upto(fns, config, n) is Err,
    decreases n,
{
    if f < n - 1 {
        lemma_bad_function_refused(fns, config, f, n - 1);
    }
}

/// What an attribute is taken for.
pub enum AttrKind {
    Doc,
    Stable,
    Mutating,
    Cfg,
    /// Its path is not a single identifier.
    NotIdent,
    /// It is none of the others.
    Unsupported,
}

/// What `attr` is taken for.
pub open spec fn attr_kind(attr: Attribute) -> AttrKind {
    if is_doc(attr) {
        AttrKind::Doc
    } else {
        match attr.ident {
            None => AttrKind::NotIdent,
            Some(name) => if name@ == "stable"@ {
                AttrKind::Stable
            } else if name@ == "mutating"@ {
                AttrKind::Mutating
            } else if name@ == "cfg"@ {
                AttrKind::Cfg
            } else {
                AttrKind::Unsupported
            },
        }
    }
}

/// Whether one of the first `n` attributes is taken for `kind`.
pub open spec fn has_kind(attrs: Seq<Attribute>, n: int, kind: AttrKind) -> bool {
    exists|i: int| 0 <= i < n && attr_kind(#[trigger] attrs[i]) == kind
}

/// Whether at most one of the first `n` attributes is taken for `kind`.
pub open spec fn at_most_once(attrs: Seq<Attribute>, n: int, kind: AttrKind) -> bool {
    forall|i: int, j: int|
        0 <= i < j < n ==> !(attr_kind(#[trigger] attrs[i]) == kind && attr_kind(
            #[trigger] attrs[j],
        ) == kind)
}

/// Whether the first `n` attributes can follow attributes that gave
/// `flags`: each is one that a host function may have, and `stable`,
/// `mutating` and `cfg` are not repeated.
pub open spec fn attributes_allowed(attrs: Seq<Attribute>, n: int, flags: AttrFlags) -> bool {
    &&& forall|i: int|
        0 <= i < n ==> attr_kind(#[trigger] attrs[i]) != AttrKind::NotIdent && attr_kind(attrs[i])
            != AttrKind::Unsupported
    &&& at_most_once(attrs, n, AttrKind::Stable)
    &&& at_most_once(attrs, n, AttrKind::Mutating)
    &&& at_most_once(attrs, n, AttrKind::Cfg)
    &&& flags.is_stable ==> !has_kind(attrs, n, AttrKind::Stable)
    &&& flags.mutating ==> !has_kind(attrs, n, AttrKind::Mutating)
    &&& flags.cfg is Some ==> !has_kind(attrs, n, AttrKind::Cfg)
}

/// The attributes of a function are accepted if and only if each of them is
/// `doc`, `stable`, `mutating` or `cfg` and none of the last three stands
/// twice. The function is then stable if `stable` is among them, changes
/// state if `mutating` is among them, and is guarded by the `cfg` attribute
/// if there is one.
pub proof fn law_attributes_accepted(attrs: Seq<Attribute>, n: int, flags: AttrFlags)
    requires
        0 <= n <= attrs.len(),
    ensures
        read_attrs(attrs, n as nat, flags) is Ok <==> attributes_allowed(attrs, n, flags),
        read_attrs(attrs, n as nat, flags) matches Ok(read) ==> {
            &&& read.is_stable <==> flags.is_stable || has_kind(attrs, n, AttrKind::Stable)
            &&& read.mutating <==> flags.mutating || has_kind(attrs, n, AttrKind::Mutating)
            &&& read.cfg is Some <==> flags.cfg is Some || has_kind(attrs, n, AttrKind::Cfg)
            &&& flags.cfg is Some ==> read.cfg == flags.cfg
            &&& flags.cfg is None ==> (read.cfg matches Some(k) ==> 0 <= k < n && attr_kind(
                attrs[k],
            ) == AttrKind::Cfg)
        },
    decreases n,
{
    if n > 0 {
        let last = attrs[n - 1];
        match read_attr(last, n - 1, flags) {
            Ok(next) => {
                law_attributes_accepted(attrs, n - 1, next);
                if attributes_allowed(attrs, n - 1, next) {
                    assert(attributes_allowed(attrs, n, flags)) by {
                        assert forall|i: int, j: int| 0 <= i < j < n implies !(attr_kind(
                            #[trigger] attrs[i],
                        ) == AttrKind::Stable && attr_kind(#[trigger] attrs[j])
                            == AttrKind::Stable) by {
                            if j == n - 1 && attr_kind(last) == AttrKind::Stable {
                                assert(!has_kind(attrs, n - 1, AttrKind::Stable));
                            }
                        }
                        assert forall|i: int, j: int| 0 <= i < j < n implies !(attr_kind(
                            #[trigger] attrs[i],
                        ) == AttrKind::Mutating && attr_kind(#[trigger] attrs[j])
                            == AttrKind::Mutating) by {
                            if j == n - 1 && attr_kind(last) == AttrKind::Mutating {
                                assert(!has_kind(attrs, n - 1, AttrKind::Mutating));
                            }
                        }
                        assert forall|i: int, j: int| 0 <= i < j < n implies !(attr_kind(
                            #[trigger] attrs[i],
                        ) == AttrKind::Cfg && attr_kind(#[trigger] attrs[j]) == AttrKind::Cfg) by {
                            if j == n - 1 && attr_kind(last) == AttrKind::Cfg {
                                assert(!has_kind(attrs, n - 1, AttrKind::Cfg));
                            }
                        }
                    }
                }
                if attributes_allowed(attrs, n, flags) {
                    assert(attributes_allowed(attrs, n - 1, next)) by {
                        if has_kind(attrs, n - 1, AttrKind::Stable) {
                            let i = choose|i: int|
                                0 <= i < n - 1 && attr_kind(#[trigger] attrs[i])
                                    == AttrKind::Stable;
                            assert(attr_kind(attrs[i]) == AttrKind::Stable);
                            assert(attr_kind(attrs[n - 1]) != AttrKind::Stable);
                        }
                        if has_kind(attrs, n - 1, AttrKind::Mutating) {
                            let i = choose|i: int|
                                0 <= i < n - 1 && attr_kind(#[trigger] attrs[i])
                                    == AttrKind::Mutating;
                            assert(attr_kind(attrs[i]) == AttrKind::Mutating);
                            assert(attr_kind(attrs[n - 1]) != AttrKind::Mutating);
                        }
                        if has_kind(attrs, n - 1, AttrKind::Cfg) {
                            let i = choose|i: int|
                                0 <= i < n - 1 && attr_kind(#[trigger] attrs[i]) == AttrKind::Cfg;
                            assert(attr_kind(attrs[i]) == AttrKind::Cfg);
                            assert(attr_kind(attrs[n - 1]) != AttrKind::Cfg);
                        }
                    }
                }
                if read_attrs(attrs, n as nat, flags) is Ok {
                    assert(attr_kind(attrs[n - 1]) == attr_kind(last));
                }
            },
            Err(_) => {
                assert(attr_kind(attrs[n - 1]) == attr_kind(last));
                assert(!attributes_allowed(attrs, n, flags));
            },
        }
    }
}

/// The parameters of a function are accepted if and only if every typed
/// input behind the first two is of type `u8`, `u16`, `u32` or `u64`, written
/// as a single identifier.
pub proof fn law_params_accepted(inputs: Seq<FnArg>, n: int)
    requires
        n <= inputs.len(),
    ensures
        params_upto(inputs, n) is Ok <==> forall|k: int|
            2 <= k < n ==> (#[trigger] inputs[k] matches FnArg::Typed { ty, .. }
                ==> spec_param_type(ty) is Ok),
    decreases n,
{
    if n > 2 {
        law_params_accepted(inputs, n - 1);
        if params_upto(inputs, n - 1) is Err {
            let k = choose|k: int|
                2 <= k < n - 1 && !(#[trigger] inputs[k] matches FnArg::Typed { ty, .. }
                    ==> spec_param_type(ty) is Ok);
            assert(2 <= k < n);
        }
    }
}

/// Two functions of the same name that are both built make the table
/// refused.
pub proof fn law_same_name_refused<B>(fns: Seq<HostFn<B>>, config: EnvConfig, i: int, j: int)
    requires
        0 <= i < j < fns.len(),
        fns[i].name@ == fns[j].name@,
        config.spec_enables(fns[i].cfg),
        config.spec_enables(fns[j].cfg),
    ensures
        spec_expand(fns, config) is Err,
{
    if expand_upto(fns, config, j) is Ok {
        law_table_holds_every_built_function(fns, config, j, i);
        let entries = expand_upto(fns, config, j)->Ok_0;
        let at = choose|at: int| 0 <= at < entries.len() && #[trigger] gives(fns[i], config, entries[at]);
        assert(entries[at].name == fns[j].name@);
        assert(expand_upto(fns, config, j + 1) is Err);
        crate::table::lemma_expand_error_stays(fns, config, j + 1, fns.len() as int);
    } else {
        crate::table::lemma_expand_error_stays(fns, config, j, fns.len() as int);
    }
}

/// A table is built if and only if the parameters of every function pass and
/// no two functions that are built have the same name.
pub proof fn law_table_built<B>(fns: Seq<HostFn<B>>, config: EnvConfig, n: int)
    requires
        0 <= n <= fns.len(),
    ensures
        expand_upto(fns, config, n) is Ok <==> {
            &&& forall|k: int| 0 <= k < n ==> spec_descriptor(#[trigger] fns[k]) is Ok
            &&& forall|i: int, j: int|
                0 <= i < j < n && config.spec_enables(fns[i].cfg) && config.spec_enables(
                    fns[j].cfg,
                ) ==> (#[trigger] fns[i]).name@ != (#[trigger] fns[j]).name@
        },
    decreases n,
{
    if n > 0 {
        law_table_built(fns, config, n - 1);
        let last = fns[n - 1];
        if expand_upto(fns, config, n - 1) is Ok {
            let entries = expand_upto(fns, config, n - 1)->Ok_0;
            if spec_descriptor(last) is Ok && config.spec_enables(last.cfg) {
                if has_name(entries, last.name@) {
                    let at = choose|at: int|
                        0 <= at < entries.len() && (#[trigger] entries[at]).name == last.name@;
                    law_table_holds_only_built_functions(fns, config, n - 1, at);
                    let i = choose|i: int|
                        0 <= i < n - 1 && #[trigger] gives(fns[i], config, entries[at]);
                    assert(fns[i].name@ == fns[n - 1].name@);
                } else {
                    assert forall|i: int, j: int|
                        0 <= i < j < n && config.spec_enables(fns[i].cfg) && config.spec_enables(
                            fns[j].cfg,
                        ) implies (#[trigger] fns[i]).name@ != (#[trigger] fns[j]).name@ by {
                        if j == n - 1 {
                            law_table_holds_every_built_function(fns, config, n - 1, i);
                            let at = choose|at: int|
                                0 <= at < entries.len() && #[trigger] gives(
                                    fns[i],
                                    config,
                                    entries[at],
                                );
                            assert(entries[at].name == fns[i].name@);
                        }
                    }
                }
            }
        }
    }
}

/// A definition in which any function has a parameter of a type other than
/// `u8`, `u16`, `u32` and `u64` gives no table, whatever else it holds and
/// whether that function is built or not. As a call needs a table, no call
/// can be made.
pub proof fn law_disallowed_param_refused<B>(
    attr: Seq<char>,
    item: ItemMod<B>,
    config: EnvConfig,
    f: int,
    k: int,
)
    requires
        item.content matches Some(items) && {
            let fns = fn_items(items@);
            &&& 0 <= f < fns.len()
            &&& 2 <= k < fns[f].inputs@.len()
            &&& fns[f].inputs@[k] matches FnArg::Typed { ty, .. } && spec_param_type(ty) is Err
        },
    ensures
        spec_define_env(attr, item, config) is Err,
{
    let items = item.content->Some_0;
    let fns = fn_items(items@);
    if attr.len() == 0 && module_refusal(item) is None {
        let host_fns = spec_host_fns(fns);
        lemma_bad_param_refused(fns[f].inputs@, k, fns[f].inputs@.len() as int);
        assert(host_fns[f].item == fns[f]);
        assert(spec_arg_decoder(host_fns[f].item.inputs@) is Err);
        lemma_bad_function_refused(host_fns, config, f, host_fns.len() as int);
    }
}

/// Whether `f` is built under `config` and `d` is its descriptor.
pub open spec fn gives<B>(f: HostFn<B>, config: EnvConfig, d: DescriptorView<B>) -> bool {
    &&& config.spec_enables(f.cfg)
    &&& spec_descriptor(f) == Ok::<DescriptorView<B>, crate::error::DefinitionErrorView>(d)
}

/// A table holds no function but those of its definition that are built:
/// every descriptor of the table is the descriptor of a function that the
/// configuration enables. A function that is not built is as unknown to the
/// table as one that was never defined.
pub proof fn law_table_holds_only_built_functions<B>(
    fns: Seq<HostFn<B>>,
    config: EnvConfig,
    n: int,
    i: int,
)
    requires
        0 <= n <= fns.len(),
        expand_upto(fns, config, n) matches Ok(entries) && 0 <= i < entries.len(),
    ensures
        exists|j: int| 0 <= j < n && #[trigger] gives(fns[j], config, expand_upto(fns, config, n)->Ok_0[i]),
    decreases n,
{
    let entries = expand_upto(fns, config, n)->Ok_0;
    if n > 0 {
        let before = expand_upto(fns, config, n - 1)->Ok_0;
        if i < before.len() {
            law_table_holds_only_built_functions(fns, config, n - 1, i);
            let j = choose|j: int| 0 <= j < n - 1 && #[trigger] gives(fns[j], config, before[i]);
            assert(gives(fns[j], config, entries[i]));
        } else {
            assert(gives(fns[n - 1], config, entries[i]));
        }
    }
}

/// A table holds every function of its definition that is built: every
/// function that the configuration enables has its descriptor in the table.
pub proof fn law_table_holds_every_built_function<B>(
    fns: Seq<HostFn<B>>,
    config: EnvConfig,
    n: int,
    j: int,
)
    requires
        0 <= j < n <= fns.len(),
        expand_upto(fns, config, n) is Ok,
        config.spec_enables(fns[j].cfg),
    ensures
        exists|i: int|
            0 <= i < expand_upto(fns, config, n)->Ok_0.len() && #[trigger] gives(
                fns[j],
                config,
                expand_upto(fns, config, n)->Ok_0[i],
            ),
    decreases n,
{
    let entries = expand_upto(fns, config, n)->Ok_0;
    let before = expand_upto(fns, config, n - 1)->Ok_0;
    if j < n - 1 {
        law_table_holds_every_built_function(fns, config, n - 1, j);
        let i = choose|i: int| 0 <= i < before.len() && #[trigger] gives(fns[j], config, before[i]);
        assert(gives(fns[j], config, entries[i]));
    } else {
        assert(gives(fns[j], config, entries[entries.len() - 1]));
    }
}

/// The list of all names holds the name of every function of the table, in
/// the order of the table.
pub proof fn law_all_lists_every_name<B>(entries: Seq<DescriptorView<B>>, n: int)
    requires
        0 <= n <= entries.len(),
    ensures
        func_list_upto(entries, true, n).len() == n,
        forall|k: int|
            0 <= k < n ==> #[trigger] func_list_upto(entries, true, n)[k] == symbol_of(
                entries[k].name,
            ),
    decreases n,
{
    if n > 0 {
        law_all_lists_every_name(entries, n - 1);
    }
}

/// The lists are the names of the functions that they are meant for, and of
/// no others: the functions of the table, but for a list of stable names
/// those that are not stable, each by the bytes of its name.
pub proof fn law_lists_are_filtered<B>(
    entries: Seq<DescriptorView<B>>,
    include_unstable: bool,
    n: int,
)
    requires
        0 <= n <= entries.len(),
    ensures
        func_list_upto(entries, include_unstable, n) == entries.take(n).filter(
            |d: DescriptorView<B>| include_unstable || d.is_stable,
        ).map_values(|d: DescriptorView<B>| symbol_of(d.name)),
    decreases n,
{
    let listed = |d: DescriptorView<B>| include_unstable || d.is_stable;
    let named = |d: DescriptorView<B>| symbol_of(d.name);
    if n > 0 {
        law_lists_are_filtered(entries, include_unstable, n - 1);
        let before = entries.take(n - 1);
        assert(entries.take(n) =~= before.push(entries[n - 1]));
        before.lemma_filter_push(entries[n - 1], listed);
        if listed(entries[n - 1]) {
            assert(before.filter(listed).push(entries[n - 1]).map_values(named) =~= before.filter(
                listed,
            ).map_values(named).push(named(entries[n - 1])));
        }
    } else {
        reveal(Seq::filter);
        assert(entries.take(0).filter(listed).map_values(named) =~= Seq::<Seq<u8>>::empty());
    }
}

/// The list of stable names holds the names of the stable functions, each at
/// the place that [`stable_places`] gives, and the places rise.
pub proof fn lemma_stable_places<B>(entries: Seq<DescriptorView<B>>, n: int)
    requires
        0 <= n <= entries.len(),
    ensures
        embeds(
            func_list_upto(entries, false, n),
            func_list_upto(entries, true, n),
            stable_places(entries, n),
        ),
        forall|i: int|
            0 <= i < stable_places(entries, n).len() ==> #[trigger] stable_places(entries, n)[i]
                < n,
    decreases n,
{
    law_all_lists_every_name(entries, n);
    if n > 0 {
        lemma_stable_places(entries, n - 1);
        law_all_lists_every_name(entries, n - 1);
        let a = func_list_upto(entries, false, n);
        let b = func_list_upto(entries, true, n);
        let at = stable_places(entries, n);
        let a0 = func_list_upto(entries, false, n - 1);
        let at0 = stable_places(entries, n - 1);
        assert forall|i: int| 0 <= i < a.len() implies 0 <= #[trigger] at[i] < b.len() && a[i]
            == b[at[i]] by {
            if i < a0.len() {
                assert(at[i] == at0[i]);
                assert(a[i] == a0[i]);
            }
        }
        assert forall|i: int, j: int| 0 <= i < j < a.len() implies #[trigger] at[i]
            < #[trigger] at[j] by {
            assert(at[i] == at0[i]);
            if j < a0.len() {
                assert(at[j] == at0[j]);
            }
        }
    }
}

/// The stable names are a subsequence of all names: every stable name is
/// among all names, and the stable names stand in the same order there.
pub proof fn law_stable_is_subsequence<B>(entries: Seq<DescriptorView<B>>)
    ensures
        is_subsequence(
            spec_func_list(entries, false),
            spec_func_list(entries, true),
        ),
{
    lemma_stable_places(entries, entries.len() as int);
}

/// The lists of the first functions of a table depend on those alone.
pub proof fn lemma_func_list_of_prefix<B>(
    a: Seq<DescriptorView<B>>,
    b: Seq<DescriptorView<B>>,
    include_unstable: bool,
    n: int,
)
    requires
        0 <= n <= a.len(),
        n <= b.len(),
        forall|k: int| 0 <= k < n ==> a[k] == b[k],
    ensures
        func_list_upto(a, include_unstable, n) == func_list_upto(b, include_unstable, n),
    decreases n,
{
    if n > 0 {
        lemma_func_list_of_prefix(a, b, include_unstable, n - 1);
    }
}

/// One more function that is not stable makes the list of all names longer
/// by its name, and leaves the list of stable names as it is.
pub proof fn law_unstable_lengthens_all_only<B>(
    entries: Seq<DescriptorView<B>>,
    added: DescriptorView<B>,
)
    requires
        !added.is_stable,
    ensures
        func_list_upto(entries.push(added), true, entries.len() as int + 1) == spec_func_list(entries, true).push(symbol_of(added.name)),
        func_list_upto(entries.push(added), false, entries.len() as int + 1) == spec_func_list(entries, false),
{
    let more = entries.push(added);
    lemma_func_list_of_prefix(more, entries, true, entries.len() as int);
    lemma_func_list_of_prefix(more, entries, false, entries.len() as int);
}

/// The list of stable names is never longer than the list of all names, and
/// it is shorter as soon as the table holds a function that is not stable.
pub proof fn law_stable_list_shorter<B>(entries: Seq<DescriptorView<B>>, n: int)
    requires
        0 <= n <= entries.len(),
    ensures
        func_list_upto(entries, false, n).len() <= func_list_upto(entries, true, n).len(),
        (exists|k: int| 0 <= k < n && !(#[trigger] entries[k]).is_stable) ==> func_list_upto(
            entries,
            false,
            n,
        ).len() < func_list_upto(entries, true, n).len(),
    decreases n,
{
    if n > 0 {
        law_stable_list_shorter(entries, n - 1);
        if exists|k: int| 0 <= k < n && !(#[trigger] entries[k]).is_stable {
            let k = choose|k: int| 0 <= k < n && !(#[trigger] entries[k]).is_stable;
            if k < n - 1 {
                assert(0 <= k < n - 1 && !entries[k].is_stable);
            }
        }
    }
}

/// The first functions of a definition give the same descriptors whatever
/// follows them.
pub proof fn lemma_expand_of_prefix<B>(
    a: Seq<HostFn<B>>,
    b: Seq<HostFn<B>>,
    config: EnvConfig,
    n: int,
)
    requires
        0 <= n <= a.len(),
        n <= b.len(),
        forall|k: int| 0 <= k < n ==> a[k] == b[k],
    ensures
        expand_upto(a, config, n) == expand_upto(b, config, n),
    decreases n,
{
    if n > 0 {
        lemma_expand_of_prefix(a, b, config, n - 1);
    }
}

/// A function that is added behind those of a definition adds its
/// descriptor behind those of the table, if it is built, its parameters
/// pass, and its name is not taken; the descriptors before it stay.
pub proof fn law_registering_appends<B>(
    fns: Seq<HostFn<B>>,
    config: EnvConfig,
    added: HostFn<B>,
)
    requires
        spec_expand(fns, config) is Ok,
        spec_descriptor(added) is Ok,
        config.spec_enables(added.cfg),
        !has_name(spec_expand(fns, config)->Ok_0, added.name@),
    ensures
        expand_upto(fns.push(added), config, fns.len() as int + 1) == Ok::<
            Seq<DescriptorView<B>>,
            crate::error::DefinitionErrorView,
        >(spec_expand(fns, config)->Ok_0.push(spec_descriptor(added)->Ok_0)),
{
    lemma_expand_of_prefix(fns.push(added), fns, config, fns.len() as int);
}

} // verus!
