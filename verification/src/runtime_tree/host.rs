//! Functions that the host provides for a module's imported functions.
//!
//! The host is a closure that takes the index of an imported function among the
//! instance's functions and its arguments, in the order in which they were
//! popped, and gives the function's results, or `None` where it provides no
//! such function.
use crate::runtime_tree::language_types::ValueTypeProvider;
use vstd::prelude::*;

verus! {

/// The results of a host call as values.
pub open spec fn host_view(r: Option<Vec<ValueTypeProvider>>) -> Option<Seq<ValueTypeProvider>> {
    match r {
        Some(v) => Some(v@),
        None => None,
    }
}

/// Whether `host` can be called with any function index and any arguments.
pub open spec fn host_callable<H: Fn(usize, Vec<ValueTypeProvider>) -> Option<Vec<ValueTypeProvider>>>(host: H) -> bool {
    forall|i: usize, a: Vec<ValueTypeProvider>| #[trigger] call_requires(host, (i, a))
}

/// Whether what `host` gives depends on the function index and the arguments
/// alone.
pub open spec fn host_deterministic<H: Fn(usize, Vec<ValueTypeProvider>) -> Option<Vec<ValueTypeProvider>>>(host: H) -> bool {
    forall|i: usize, a1: Vec<ValueTypeProvider>, a2: Vec<ValueTypeProvider>, r1: Option<Vec<ValueTypeProvider>>, r2: Option<Vec<ValueTypeProvider>>|
        a1@ == a2@ && #[trigger] call_ensures(host, (i, a1), r1) && #[trigger] call_ensures(host, (i, a2), r2) ==> host_view(r1)
            == host_view(r2)
}

/// What `host` gives for function `index` and the arguments `args`; `None`
/// where it can give nothing.
pub open spec fn host_results<H: Fn(usize, Vec<ValueTypeProvider>) -> Option<Vec<ValueTypeProvider>>>(
    host: H,
    index: usize,
    args: Seq<ValueTypeProvider>,
) -> Option<Seq<ValueTypeProvider>> {
    if exists|a: Vec<ValueTypeProvider>, r: Option<Vec<ValueTypeProvider>>| a@ == args && call_ensures(host, (index, a), r) {
        let (a, r) = choose|a: Vec<ValueTypeProvider>, r: Option<Vec<ValueTypeProvider>>|
            a@ == args && call_ensures(host, (index, a), r);
        host_view(r)
    } else {
        None
    }
}

/// Calls the host for function `index` with `args`: what comes back is one
/// of the host's answers to that call, and, for a host whose answers depend on
/// the call alone, the answer that `host_results` names.
pub fn call_host<H: Fn(usize, Vec<ValueTypeProvider>) -> Option<Vec<ValueTypeProvider>>>(
    host: &H,
    index: usize,
    args: Vec<ValueTypeProvider>,
) -> (r: Option<Vec<ValueTypeProvider>>)
    requires
        host_callable(*host),
    ensures
        call_ensures(*host, (index, args), r),
        host_deterministic(*host) ==> host_view(r) == host_results(*host, index, args@),
{
    let ghost a = args;
    assert(call_requires(*host, (index, a)));
    let r = host(index, args);
    proof {
        assert(call_ensures(*host, (index, a), r));
        if host_deterministic(*host) {
            let (a2, r2) = choose|a2: Vec<ValueTypeProvider>, r2: Option<Vec<ValueTypeProvider>>|
                a2@ == a@ && call_ensures(*host, (index, a2), r2);
            assert(host_view(r2) == host_view(r));
        }
    }
    r
}

/// The host that provides no functions: a call of an imported function stops
/// the run with `HostFunction`.
pub fn no_host(index: usize, args: Vec<ValueTypeProvider>) -> (r: Option<Vec<ValueTypeProvider>>)
    ensures
        r is None,
{
    None
}

/// `no_host` is a host that gives `None` for every call.
pub proof fn lemma_no_host()
    ensures
        host_callable(no_host),
        host_deterministic(no_host),
        forall|i: usize, a: Seq<ValueTypeProvider>| host_results(no_host, i, a) is None,
{
    assert forall|i: usize, a: Seq<ValueTypeProvider>| host_results(no_host, i, a) is None by {
        if exists|a2: Vec<ValueTypeProvider>, r2: Option<Vec<ValueTypeProvider>>| a2@ == a && call_ensures(no_host, (i, a2), r2) {
            let (a2, r2) = choose|a2: Vec<ValueTypeProvider>, r2: Option<Vec<ValueTypeProvider>>|
                a2@ == a && call_ensures(no_host, (i, a2), r2);
            assert(r2 is None);
        }
    }
}

} // verus!
