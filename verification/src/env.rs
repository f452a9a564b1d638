//! An environment definition, checked function by function.

use vstd::prelude::*;
use vstd::string::StringExecFns;
use crate::error::{DefinitionError, DefinitionErrorView};
use crate::hostfn::{check_item, spec_host_fn, HostFn};
use crate::syntax::{Attribute, Item, ItemFn, ItemMod};

verus! {

/// The host functions of an environment, each checked, in the order in which
/// they are written.
#[derive(Debug)]
pub struct EnvDef<B> {
    pub host_funcs: Vec<HostFn<B>>,
}

/// The functions among `items`, in their order.
pub open spec fn fn_items<B>(items: Seq<Item<B>>) -> Seq<ItemFn<B>> {
    fn_items_upto(items, items.len() as int)
}

/// The functions among the first `n` items, in their order.
pub open spec fn fn_items_upto<B>(items: Seq<Item<B>>, n: int) -> Seq<ItemFn<B>>
    decreases n,
{
    if n <= 0 {
        Seq::empty()
    } else {
        match items[n - 1] {
            Item::Fn(f) => fn_items_upto(items, n - 1).push(f),
            Item::Other => fn_items_upto(items, n - 1),
        }
    }
}

/// The reason for which the first of `fns` that does not pass the checks is
/// refused, if there is one.
pub open spec fn first_refusal<B>(fns: Seq<ItemFn<B>>) -> Option<DefinitionErrorView> {
    refusal_upto(fns, fns.len() as int)
}

/// The reason for which the first of the first `n` functions that does not
/// pass the checks is refused.
pub open spec fn refusal_upto<B>(fns: Seq<ItemFn<B>>, n: int) -> Option<DefinitionErrorView>
    decreases n,
{
    if n <= 0 {
        None
    } else {
        match refusal_upto(fns, n - 1) {
            Some(e) => Some(e),
            None => match check_item(fns[n - 1]) {
                Err(e) => Some(e),
                Ok(_) => None,
            },
        }
    }
}

/// What the checks on a module give: the reason for which it is refused, if
/// it is.
pub open spec fn module_refusal<B>(item: ItemMod<B>) -> Option<DefinitionErrorView> {
    match item.content {
        None => Some(DefinitionErrorView::ModuleNotInlined),
        Some(items) => {
            let fns = fn_items(items@);
            first_refusal(fns)
        },
    }
}

/// The host functions that functions give which all pass the checks.
pub open spec fn spec_host_fns<B>(fns: Seq<ItemFn<B>>) -> Seq<HostFn<B>> {
    Seq::new(fns.len(), |j: int| spec_host_fn(fns[j], check_item(fns[j])->Ok_0))
}

/// A refusal among the first functions stays the refusal of the whole.
pub proof fn lemma_refusal_stays<B>(fns: Seq<ItemFn<B>>, m: int, n: int)
    requires
        m <= n,
        refusal_upto(fns, m) is Some,
    ensures
        refusal_upto(fns, n) == refusal_upto(fns, m),
    decreases n - m,
{
    if m < n {
        lemma_refusal_stays(fns, m, n - 1);
    }
}

/// The functions among the first `m` items are the first of those among the
/// first `n`.
pub proof fn lemma_fn_items_prefix<B>(items: Seq<Item<B>>, m: int, n: int)
    requires
        0 <= m <= n,
    ensures
        fn_items_upto(items, m).len() <= fn_items_upto(items, n).len(),
        fn_items_upto(items, m) == fn_items_upto(items, n).subrange(0, fn_items_upto(items, m).len() as int),
    decreases n - m,
{
    if m < n {
        lemma_fn_items_prefix(items, m, n - 1);
        assert(fn_items_upto(items, m) =~= fn_items_upto(items, n).subrange(
            0,
            fn_items_upto(items, m).len() as int,
        ));
    } else {
        assert(fn_items_upto(items, m) =~= fn_items_upto(items, n).subrange(
            0,
            fn_items_upto(items, m).len() as int,
        ));
    }
}

impl<B> EnvDef<B> {
    /// Whether these host functions are what the checks make of the functions
    /// among `items`, one for one and in their order.
    pub open spec fn checked_from(self, items: Seq<Item<B>>) -> bool {
        let fns = fn_items(items);
        &&& self.host_funcs@.len() == fns.len()
        &&& forall|j: int|
            0 <= j < fns.len() ==> (#[trigger] self.host_funcs@[j]).checked_from(fns[j])
    }

    /// Checks the functions of a module, in their order, and takes them as
    /// the host functions of an environment. Items that are no functions are
    /// passed over. A module without a body is refused, and so is a module
    /// with a function that does not pass the checks: the first such function
    /// decides the error.
    pub fn try_from(item: ItemMod<B>) -> (result: Result<EnvDef<B>, DefinitionError>)
        ensures
            match result {
                Ok(def) => {
                    &&& module_refusal(item) is None
                    &&& item.content matches Some(items)
                    &&& def.checked_from(items@)
                },
                Err(e) => module_refusal(item) == Some(e@),
            },
    {
        let items = match item.content {
            Some(items) => items,
            None => {
                return Err(DefinitionError::ModuleNotInlined);
            },
        };
        let ghost all = items@;
        let ghost fns = fn_items(all);
        let mut host_funcs: Vec<HostFn<B>> = Vec::new();
        for it in iter: items
            invariant
                iter.seq() == all,
                item.content matches Some(written) && written@ == all,
                fns == fn_items(all),
                host_funcs@.len() == fn_items_upto(all, iter.index() as int).len(),
                host_funcs@.len() <= fns.len(),
                refusal_upto(fns, host_funcs@.len() as int) is None,
                forall|j: int|
                    0 <= j < host_funcs@.len() ==> (#[trigger] host_funcs@[j]).checked_from(fns[j]),
        {
            let ghost k = host_funcs@.len() as int;
            proof {
                lemma_fn_items_prefix(all, iter.index() as int + 1, all.len() as int);
            }
            match it {
                Item::Fn(f) => {
                    proof {
                        let upto = fn_items_upto(all, iter.index() as int + 1);
                        assert(upto == fn_items_upto(all, iter.index() as int).push(f));
                        assert(upto[k] == f);
                        assert(fns.subrange(0, upto.len() as int)[k] == fns[k]);
                    }
                    match HostFn::try_from(f) {
                        Ok(host_fn) => {
                            host_funcs.push(host_fn);
                        },
                        Err(e) => {
                            proof {
                                lemma_refusal_stays(fns, k + 1, fns.len() as int);
                            }
                            return Err(e);
                        },
                    }
                },
                Item::Other => {},
            }
        }
        Ok(EnvDef { host_funcs })
    }
}

/// The feature under which functions outside the stable interface are built.
pub open spec fn unstable_feature() -> Seq<char> {
    "unstable-hostfn"@
}

/// Whether `attr` is the `cfg` attribute that asks for the feature of the
/// unstable functions.
pub open spec fn is_unstable_cfg(attr: Attribute) -> bool {
    &&& attr.ident matches Some(name)
    &&& name@ == "cfg"@
    &&& attr.argument@ == unstable_feature()
}

/// Whether `attr` is the `cfg_attr` attribute that has the documentation
/// say under which feature the function is built.
pub open spec fn is_unstable_doc_cfg(attr: Attribute) -> bool {
    &&& attr.ident matches Some(name)
    &&& name@ == "cfg_attr"@
    &&& attr.argument@ == "docsrs, doc(cfg(feature = \"unstable-hostfn\"))"@
}

/// Marks a function as one that is built only with the feature of the
/// unstable functions: puts a `cfg` attribute that asks for the feature, and
/// a `cfg_attr` attribute for the documentation, before the attributes that
/// the function has. Nothing else of the function changes.
pub fn unstable_hostfn<B>(item: ItemFn<B>) -> (marked: ItemFn<B>)
    ensures
        marked.attrs@.len() == item.attrs@.len() + 2,
        is_unstable_cfg(marked.attrs@[0]),
        is_unstable_doc_cfg(marked.attrs@[1]),
        marked.attrs@.subrange(2, marked.attrs@.len() as int) == item.attrs@,
        marked.ident == item.ident,
        marked.inputs == item.inputs,
        marked.output == item.output,
        marked.block == item.block,
{
    let ItemFn { attrs, ident, inputs, output, block } = item;
    let ghost written = attrs@;
    let mut marked: Vec<Attribute> = Vec::new();
    marked.push(
        Attribute {
            ident: Some(String::from_str("cfg")),
            argument: String::from_str("unstable-hostfn"),
        },
    );
    marked.push(
        Attribute {
            ident: Some(String::from_str("cfg_attr")),
            argument: String::from_str("docsrs, doc(cfg(feature = \"unstable-hostfn\"))"),
        },
    );
    for attr in iter: attrs
        invariant
            iter.seq() == written,
            marked@.len() == iter.index() + 2,
            is_unstable_cfg(marked@[0]),
            is_unstable_doc_cfg(marked@[1]),
            marked@.subrange(2, marked@.len() as int) == written.subrange(0, iter.index() as int),
    {
        marked.push(attr);
        assert(marked@.subrange(2, marked@.len() as int) =~= written.subrange(
            0,
            iter.index() as int + 1,
        ));
    }
    assert(written.subrange(0, written.len() as int) =~= written);
    ItemFn { attrs: marked, ident, inputs, output, block }
}


} // verus!
