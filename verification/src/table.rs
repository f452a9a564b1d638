//! The table that calls are dispatched from.
//!
//! The table is built once from the host functions of a definition and the
//! configuration of the build, and is read-only from then on. It holds one
//! descriptor for each function that the configuration enables, in the order of
//! the definition, and no two of the same name.

use vstd::prelude::*;
use vstd::slice::slice_to_vec;
use vstd::utf8::{encode_utf8, encode_utf8_decode_utf8};
use crate::decoder::{arg_decoder, spec_arg_decoder, ArgDecoder, ParamView};
use crate::env::{fn_items, module_refusal, spec_host_fns, EnvDef};
use crate::error::{DefinitionError, DefinitionErrorView};
use crate::hostfn::{HostFn, HostFnReturn};
use crate::syntax::{Attribute, ItemFn, ItemMod};
use crate::text::{bytes_eq, str_eq};

verus! {

/// The configuration of a build.
#[derive(Debug)]
pub struct EnvConfig {
    /// The features that are enabled.
    pub features: Vec<String>,
    /// The gas that every call costs, whatever it calls.
    pub host_fn_cost: u64,
}

/// A host function as the table holds it.
#[derive(Debug)]
pub struct Descriptor<B> {
    /// The name under which guests import the function.
    pub name: String,
    pub is_stable: bool,
    pub mutating: bool,
    /// The `cfg` attribute under which the function is built.
    pub cfg: Option<Attribute>,
    pub decoder: ArgDecoder,
    pub returns: HostFnReturn,
    /// What runs when the function is called.
    pub handler: B,
}

/// A descriptor, with its texts as sequences of characters.
pub struct DescriptorView<B> {
    pub name: Seq<char>,
    pub is_stable: bool,
    pub mutating: bool,
    /// The feature under which the function is built.
    pub guard: Option<Seq<char>>,
    pub params: Seq<ParamView>,
    pub returns: HostFnReturn,
    pub handler: B,
}

/// A table: its descriptors in their order, and the cost of a call.
pub struct TableView<B> {
    pub entries: Seq<DescriptorView<B>>,
    pub host_fn_cost: u64,
}

/// The table that calls are dispatched from, with the lists of the names it
/// holds.
#[derive(Debug)]
pub struct DispatchTable<B> {
    entries: Vec<Descriptor<B>>,
    host_fn_cost: u64,
    all_syscalls: Vec<Vec<u8>>,
    stable_syscalls: Vec<Vec<u8>>,
}

impl<B> View for Descriptor<B> {
    type V = DescriptorView<B>;

    open spec fn view(&self) -> DescriptorView<B> {
        DescriptorView {
            name: self.name@,
            is_stable: self.is_stable,
            mutating: self.mutating,
            guard: guard_of(self.cfg),
            params: self.decoder@,
            returns: self.returns,
            handler: self.handler,
        }
    }
}

/// The feature that a `cfg` attribute asks for.
pub open spec fn guard_of(cfg: Option<Attribute>) -> Option<Seq<char>> {
    match cfg {
        Some(attr) => Some(attr.argument@),
        None => None,
    }
}

/// The descriptors of a list, each by its view.
pub open spec fn descriptors_view<B>(entries: Seq<Descriptor<B>>) -> Seq<DescriptorView<B>> {
    entries.map_values(|d: Descriptor<B>| d@)
}

/// The bytes by which a guest names the function `name`.
pub open spec fn symbol_of(name: Seq<char>) -> Seq<u8> {
    encode_utf8(name)
}

/// Whether a function of this name is among `entries`.
pub open spec fn has_name<B>(entries: Seq<DescriptorView<B>>, name: Seq<char>) -> bool {
    exists|i: int| 0 <= i < entries.len() && (#[trigger] entries[i]).name == name
}

/// Whether no two of `entries` have the same name.
pub open spec fn distinct_names<B>(entries: Seq<DescriptorView<B>>) -> bool {
    forall|i: int, j: int|
        0 <= i < j < entries.len() ==> (#[trigger] entries[i]).name != (#[trigger] entries[j]).name
}

/// The descriptor that a host function gives, or the reason for which its
/// parameters are refused.
pub open spec fn spec_descriptor<B>(f: HostFn<B>) -> Result<DescriptorView<B>, DefinitionErrorView> {
    match spec_arg_decoder(f.item.inputs@) {
        Err(e) => Err(e),
        Ok(params) => Ok(
            DescriptorView {
                name: f.name@,
                is_stable: f.is_stable,
                mutating: f.mutating,
                guard: guard_of(f.cfg),
                params,
                returns: f.returns,
                handler: f.item.block,
            },
        ),
    }
}

/// The descriptors that host functions give under `config`, or the reason
/// for which the first function at fault is refused.
pub open spec fn spec_expand<B>(fns: Seq<HostFn<B>>, config: EnvConfig) -> Result<
    Seq<DescriptorView<B>>,
    DefinitionErrorView,
> {
    expand_upto(fns, config, fns.len() as int)
}

/// The descriptors that the first `n` host functions give under `config`.
///
/// The parameters of every function are checked, whether it is built or not.
/// A function is built if it has no `cfg` attribute or the feature that the
/// attribute asks for is enabled; one that is built under the name of one
/// built before it is refused. The first function at fault decides the error.
pub open spec fn expand_upto<B>(fns: Seq<HostFn<B>>, config: EnvConfig, n: int) -> Result<
    Seq<DescriptorView<B>>,
    DefinitionErrorView,
>
    decreases n,
{
    if n <= 0 {
        Ok(Seq::empty())
    } else {
        match expand_upto(fns, config, n - 1) {
            Err(e) => Err(e),
            Ok(entries) => match spec_descriptor(fns[n - 1]) {
                Err(e) => Err(e),
                Ok(d) => if !config.spec_enables(fns[n - 1].cfg) {
                    Ok(entries)
                } else if has_name(entries, d.name) {
                    Err(DefinitionErrorView::DuplicateSymbol)
                } else {
                    Ok(entries.push(d))
                },
            },
        }
    }
}

/// The names of `entries` as guests write them, in their order: all of
/// them, or only those of the stable functions.
pub open spec fn spec_func_list<B>(entries: Seq<DescriptorView<B>>, include_unstable: bool) -> Seq<
    Seq<u8>,
> {
    func_list_upto(entries, include_unstable, entries.len() as int)
}

/// The names of the first `n` of `entries` as guests write them, in their
/// order: all of them, or only those of the stable functions.
pub open spec fn func_list_upto<B>(
    entries: Seq<DescriptorView<B>>,
    include_unstable: bool,
    n: int,
) -> Seq<Seq<u8>>
    decreases n,
{
    if n <= 0 {
        Seq::empty()
    } else {
        let before = func_list_upto(entries, include_unstable, n - 1);
        if include_unstable || entries[n - 1].is_stable {
            before.push(symbol_of(entries[n - 1].name))
        } else {
            before
        }
    }
}

/// Whether `list` holds the byte strings `names`, one for one.
pub open spec fn holds_names(list: Seq<Vec<u8>>, names: Seq<Seq<u8>>) -> bool {
    &&& list.len() == names.len()
    &&& forall|i: int| 0 <= i < names.len() ==> (#[trigger] list[i])@ == names[i]
}

/// The place of the function that a guest names by `symbol`, if `entries`
/// hold one.
pub open spec fn spec_lookup<B>(entries: Seq<DescriptorView<B>>, symbol: Seq<u8>) -> Option<int> {
    lookup_upto(entries, symbol, entries.len() as int)
}

/// The first of the first `n` of `entries` that a guest names by `symbol`.
pub open spec fn lookup_upto<B>(entries: Seq<DescriptorView<B>>, symbol: Seq<u8>, n: int) -> Option<
    int,
>
    decreases n,
{
    if n <= 0 {
        None
    } else {
        match lookup_upto(entries, symbol, n - 1) {
            Some(i) => Some(i),
            None => if symbol_of(entries[n - 1].name) == symbol {
                Some(n - 1)
            } else {
                None
            },
        }
    }
}

/// Once a function is refused, those behind it change nothing.
pub proof fn lemma_expand_error_stays<B>(fns: Seq<HostFn<B>>, config: EnvConfig, m: int, n: int)
    requires
        m <= n,
        expand_upto(fns, config, m) is Err,
    ensures
        expand_upto(fns, config, n) == expand_upto(fns, config, m),
    decreases n - m,
{
    if m < n {
        lemma_expand_error_stays(fns, config, m, n - 1);
    }
}

/// No two descriptors of a table that was built have the same name.
pub proof fn lemma_expand_distinct<B>(fns: Seq<HostFn<B>>, config: EnvConfig, n: int)
    ensures
        expand_upto(fns, config, n) matches Ok(entries) ==> distinct_names(entries),
    decreases n,
{
    if n > 0 {
        lemma_expand_distinct(fns, config, n - 1);
    }
}

/// A symbol that is found among the first descriptors is found there among
/// all of them.
pub proof fn lemma_lookup_stays<B>(entries: Seq<DescriptorView<B>>, symbol: Seq<u8>, m: int, n: int)
    requires
        m <= n,
        lookup_upto(entries, symbol, m) is Some,
    ensures
        lookup_upto(entries, symbol, n) == lookup_upto(entries, symbol, m),
    decreases n - m,
{
    if m < n {
        lemma_lookup_stays(entries, symbol, m, n - 1);
    }
}

/// What a lookup finds is a descriptor of that symbol, and the first one;
/// where it finds none, there is none.
pub proof fn lemma_lookup_finds<B>(entries: Seq<DescriptorView<B>>, symbol: Seq<u8>, n: int)
    requires
        n <= entries.len(),
    ensures
        match lookup_upto(entries, symbol, n) {
            Some(i) => {
                &&& 0 <= i < n
                &&& symbol_of(entries[i].name) == symbol
                &&& forall|j: int| 0 <= j < i ==> symbol_of(#[trigger] entries[j].name) != symbol
            },
            None => forall|j: int| 0 <= j < n ==> symbol_of(#[trigger] entries[j].name) != symbol,
        },
    decreases n,
{
    if n > 0 {
        lemma_lookup_finds(entries, symbol, n - 1);
    }
}

impl EnvConfig {
    /// Whether a function with this `cfg` attribute is built: whether it has
    /// none, or the feature it asks for is enabled.
    pub open spec fn spec_enables(self, cfg: Option<Attribute>) -> bool {
        match cfg {
            None => true,
            Some(attr) => exists|i: int|
                0 <= i < self.features@.len() && (#[trigger] self.features@[i])@ == attr.argument@,
        }
    }

    /// Whether a function with this `cfg` attribute is built.
    pub fn enables(&self, cfg: &Option<Attribute>) -> (yes: bool)
        ensures
            yes == self.spec_enables(*cfg),
    {
        match cfg {
            None => true,
            Some(attr) => {
                let mut i: usize = 0;
                while i < self.features.len()
                    invariant
                        i <= self.features@.len(),
                        *cfg == Some(*attr),
                        forall|k: int| 0 <= k < i ==> (#[trigger] self.features@[k])@ != attr.argument@,
                    decreases self.features@.len() - i,
                {
                    if str_eq(self.features[i].as_str(), attr.argument.as_str()) {
                        assert(self.features@[i as int]@ == attr.argument@);
                        return true;
                    }
                    i += 1;
                }
                false
            },
        }
    }
}

/// Whether a function of this name is among `entries`.
fn name_taken<B>(entries: &Vec<Descriptor<B>>, name: &str) -> (taken: bool)
    ensures
        taken == has_name(descriptors_view(entries@), name@),
{
    let mut i: usize = 0;
    while i < entries.len()
        invariant
            i <= entries@.len(),
            forall|k: int| 0 <= k < i ==> (#[trigger] descriptors_view(entries@)[k]).name != name@,
        decreases entries@.len() - i,
    {
        if str_eq(entries[i].name.as_str(), name) {
            assert(descriptors_view(entries@)[i as int].name == name@);
            return true;
        }
        i += 1;
    }
    false
}

/// Builds the descriptors of the host functions that `config` enables.
///
/// The parameters of every function are checked and its argument decoder is
/// made, whether the function is built or not; the descriptors of those that
/// are built are kept, in the order of the definition. The first function
/// whose parameters are refused, or that is built under a name already taken,
/// decides the error.
pub fn expand_functions<B>(def: EnvDef<B>, config: &EnvConfig) -> (result: Result<
    Vec<Descriptor<B>>,
    DefinitionError,
>)
    ensures
        match result {
            Ok(entries) => spec_expand(def.host_funcs@, *config)
                == Ok::<Seq<DescriptorView<B>>, DefinitionErrorView>(descriptors_view(entries@)),
            Err(e) => spec_expand(def.host_funcs@, *config) == Err::<
                Seq<DescriptorView<B>>,
                DefinitionErrorView,
            >(e@),
        },
{
    let ghost all = def.host_funcs@;
    let mut entries: Vec<Descriptor<B>> = Vec::new();
    assert(descriptors_view(entries@) =~= Seq::empty());
    for f in iter: def.host_funcs
        invariant
            iter.seq() == all,
            def.host_funcs@ == all,
            expand_upto(all, *config, iter.index() as int) == Ok::<
                Seq<DescriptorView<B>>,
                DefinitionErrorView,
            >(descriptors_view(entries@)),
    {
        let ghost upto = iter.index() as int + 1;
        let HostFn { item, is_stable, mutating, name, returns: kind, cfg } = f;
        let ItemFn { attrs: _, ident: _, inputs, output: _, block } = item;
        let decoder = match arg_decoder(&inputs) {
            Ok(decoder) => decoder,
            Err(e) => {
                proof {
                    lemma_expand_error_stays(all, *config, upto, all.len() as int);
                }
                return Err(e);
            },
        };
        if config.enables(&cfg) {
            if name_taken(&entries, name.as_str()) {
                proof {
                    lemma_expand_error_stays(all, *config, upto, all.len() as int);
                }
                return Err(DefinitionError::DuplicateSymbol);
            }
            let ghost before = entries@;
            let d = Descriptor {
                name,
                is_stable,
                mutating,
                cfg,
                decoder,
                returns: kind,
                handler: block,
            };
            entries.push(d);
            assert(descriptors_view(entries@) =~= descriptors_view(before).push(d@));
        }
    }
    Ok(entries)
}

/// The names of the functions in `entries` as guests write them, in their
/// order: all of them, or only those of the stable functions.
pub fn expand_func_list<B>(entries: &Vec<Descriptor<B>>, include_unstable: bool) -> (list: Vec<
    Vec<u8>,
>)
    ensures
        holds_names(list@, spec_func_list(descriptors_view(entries@), include_unstable)),
{
    let ghost views = descriptors_view(entries@);
    let mut list: Vec<Vec<u8>> = Vec::new();
    let mut i: usize = 0;
    while i < entries.len()
        invariant
            i <= entries@.len(),
            views == descriptors_view(entries@),
            holds_names(list@, func_list_upto(views, include_unstable, i as int)),
        decreases entries@.len() - i,
    {
        if include_unstable || entries[i].is_stable {
            let symbol = slice_to_vec(entries[i].name.as_str().as_bytes());
            list.push(symbol);
        }
        i += 1;
    }
    list
}

impl<B> DispatchTable<B> {
    #[verifier::type_invariant]
    spec fn consistent(self) -> bool {
        let entries = descriptors_view(self.entries@);
        &&& distinct_names(entries)
        &&& holds_names(self.all_syscalls@, spec_func_list(entries, true))
        &&& holds_names(self.stable_syscalls@, spec_func_list(entries, false))
    }

    /// The number of functions in the table.
    pub fn len(&self) -> (n: usize)
        ensures
            n == self@.entries.len(),
    {
        self.entries.len()
    }

    /// The gas that every call costs, whatever it calls.
    pub fn host_fn_cost(&self) -> (cost: u64)
        ensures
            cost == self@.host_fn_cost,
    {
        self.host_fn_cost
    }

    /// The descriptor at `index`.
    pub fn entry(&self, index: usize) -> (entry: &Descriptor<B>)
        requires
            index < self@.entries.len(),
        ensures
            entry@ == self@.entries[index as int],
    {
        &self.entries[index]
    }

    /// The descriptor at `index`, if the table has that many.
    pub fn get(&self, index: usize) -> (entry: Option<&Descriptor<B>>)
        ensures
            match entry {
                Some(d) => index < self@.entries.len() && d@ == self@.entries[index as int],
                None => index >= self@.entries.len(),
            },
    {
        if index < self.entries.len() {
            Some(&self.entries[index])
        } else {
            None
        }
    }

    /// Finds the function that a guest names by `symbol`. No two functions
    /// of a table have the same name, so there is at most one.
    pub fn lookup(&self, symbol: &[u8]) -> (found: Option<usize>)
        ensures
            match found {
                Some(i) => {
                    &&& spec_lookup(self@.entries, symbol@) == Some(i as int)
                    &&& i < self@.entries.len()
                    &&& symbol_of(self@.entries[i as int].name) == symbol@
                    &&& forall|j: int|
                        0 <= j < self@.entries.len() && j != i ==> symbol_of(
                            #[trigger] self@.entries[j].name,
                        ) != symbol@
                },
                None => {
                    &&& spec_lookup(self@.entries, symbol@) is None
                    &&& forall|j: int|
                        0 <= j < self@.entries.len() ==> symbol_of(#[trigger] self@.entries[j].name)
                            != symbol@
                },
            },
    {
        proof {
            use_type_invariant(self);
            lemma_lookup_finds(self@.entries, symbol@, self@.entries.len() as int);
        }
        let mut i: usize = 0;
        while i < self.entries.len()
            invariant
                i <= self.entries@.len(),
                self@.entries == descriptors_view(self.entries@),
                distinct_names(self@.entries),
                lookup_upto(self@.entries, symbol@, i as int) is None,
            decreases self.entries@.len() - i,
        {
            if bytes_eq(self.entries[i].name.as_str().as_bytes(), symbol) {
                proof {
                    lemma_lookup_stays(
                        self@.entries,
                        symbol@,
                        i as int + 1,
                        self@.entries.len() as int,
                    );
                    assert forall|j: int|
                        0 <= j < self@.entries.len() && j != i implies symbol_of(
                        #[trigger] self@.entries[j].name,
                    ) != symbol@ by {
                        encode_utf8_decode_utf8(self@.entries[j].name);
                        encode_utf8_decode_utf8(self@.entries[i as int].name);
                    }
                }
                return Some(i);
            }
            i += 1;
        }
        None
    }

    /// The names of the functions in the table as guests write them, in the
    /// order of the definition: all of them, or only those of the stable
    /// functions.
    pub fn list_syscalls(&self, include_unstable: bool) -> (list: &Vec<Vec<u8>>)
        ensures
            holds_names(list@, spec_func_list(self@.entries, include_unstable)),
    {
        proof {
            use_type_invariant(self);
        }
        if include_unstable {
            &self.all_syscalls
        } else {
            &self.stable_syscalls
        }
    }
}

impl<B> View for DispatchTable<B> {
    type V = TableView<B>;

    closed spec fn view(&self) -> TableView<B> {
        TableView { entries: descriptors_view(self.entries@), host_fn_cost: self.host_fn_cost }
    }
}

/// What building the table of a definition gives: its descriptors, or the
/// reason for which the definition is refused.
pub open spec fn spec_expand_env<B>(host_funcs: Seq<HostFn<B>>, config: EnvConfig) -> Result<
    TableView<B>,
    DefinitionErrorView,
> {
    match spec_expand(host_funcs, config) {
        Err(e) => Err(e),
        Ok(entries) => Ok(TableView { entries, host_fn_cost: config.host_fn_cost }),
    }
}

/// Builds the table of a definition under `config`: the descriptors of the
/// functions that are built, the lists of their names, and the cost of a call.
pub fn expand_env<B>(def: EnvDef<B>, config: &EnvConfig) -> (result: Result<
    DispatchTable<B>,
    DefinitionError,
>)
    ensures
        match result {
            Ok(table) => spec_expand_env(def.host_funcs@, *config) == Ok::<
                TableView<B>,
                DefinitionErrorView,
            >(table@),
            Err(e) => spec_expand_env(def.host_funcs@, *config) == Err::<
                TableView<B>,
                DefinitionErrorView,
            >(e@),
        },
{
    proof {
        lemma_expand_distinct(def.host_funcs@, *config, def.host_funcs@.len() as int);
    }
    let entries = match expand_functions(def, config) {
        Ok(entries) => entries,
        Err(e) => {
            return Err(e);
        },
    };
    let stable_syscalls = expand_func_list(&entries, false);
    let all_syscalls = expand_func_list(&entries, true);
    Ok(DispatchTable { entries, host_fn_cost: config.host_fn_cost, all_syscalls, stable_syscalls })
}

/// What defining an environment gives: the table, or the reason for which
/// the definition is refused. The arguments of the definition are looked at
/// first, then the module, function by function, then the parameters and
/// names of the functions.
pub open spec fn spec_define_env<B>(attr: Seq<char>, item: ItemMod<B>, config: EnvConfig) -> Result<
    TableView<B>,
    DefinitionErrorView,
> {
    if attr.len() != 0 {
        Err(DefinitionErrorView::UnexpectedArguments)
    } else {
        match module_refusal(item) {
            Some(e) => Err(e),
            None => {
                let items = item.content->Some_0;
                let fns = fn_items(items@);
                spec_expand_env(spec_host_fns(fns), config)
            },
        }
    }
}

/// Checks what is written as arguments of a definition: a definition takes
/// none.
pub fn check_arguments(attr: &str) -> (result: Result<(), DefinitionError>)
    ensures
        match result {
            Ok(()) => attr@.len() == 0,
            Err(e) => attr@.len() != 0 && e@ == DefinitionErrorView::UnexpectedArguments,
        },
{
    if attr.is_empty() {
        Ok(())
    } else {
        Err(DefinitionError::UnexpectedArguments)
    }
}

/// Defines an environment: checks the functions of a module and builds the
/// table that calls are dispatched from.
///
/// `attr` is what is written as arguments of the definition itself, which
/// takes none. Every reason for which a definition is refused is found here:
/// where this returns an error there is no table, and no call can be made.
pub fn define_env<B>(attr: &str, item: ItemMod<B>, config: &EnvConfig) -> (result: Result<
    DispatchTable<B>,
    DefinitionError,
>)
    ensures
        match result {
            Ok(table) => spec_define_env(attr@, item, *config) == Ok::<
                TableView<B>,
                DefinitionErrorView,
            >(table@),
            Err(e) => spec_define_env(attr@, item, *config) == Err::<
                TableView<B>,
                DefinitionErrorView,
            >(e@),
        },
{
    match check_arguments(attr) {
        Ok(()) => {},
        Err(e) => {
            return Err(e);
        },
    }
    let def = match EnvDef::try_from(item) {
        Ok(def) => def,
        Err(e) => {
            return Err(e);
        },
    };
    proof {
        let items = item.content->Some_0;
        let fns = fn_items(items@);
        assert(def.host_funcs@ =~= spec_host_fns(fns));
    }
    expand_env(def, config)
}

} // verus!
