//! The RPC surface of a node: which method groups a connection is served,
//! and under which leave for unsafe calls.

use vstd::prelude::*;

verus! {

/// A group of RPC methods with a namespace of its own.
#[derive(Clone, Copy, Debug, PartialEq, Eq, Structural)]
pub enum MethodGroup {
    /// Introspection of the system.
    System,
    /// Queries of transaction fees.
    TransactionPayment,
    /// Queries of the root-of-trust ledger.
    RootOfTrust,
}

/// One method group in a dispatch table, with the connection's leave for
/// unsafe calls. The leave is whatever the transport hands over for a
/// connection; it is passed on as it came.
#[derive(Clone, Copy, Debug, PartialEq, Eq)]
pub struct Registration<F> {
    pub group: MethodGroup,
    pub unsafe_calls: F,
}

/// The dispatch table of a connection: the three method groups, each once
/// and each under the connection's leave, in the order in which they are
/// merged.
pub open spec fn dispatch_table<F>(unsafe_calls: F) -> Seq<Registration<F>> {
    seq![
        Registration { group: MethodGroup::System, unsafe_calls },
        Registration { group: MethodGroup::TransactionPayment, unsafe_calls },
        Registration { group: MethodGroup::RootOfTrust, unsafe_calls },
    ]
}

/// Builds the dispatch table of one connection. It reads nothing but its
/// argument and changes nothing, so it can be called anew for every
/// connection. No group stands in the table twice: the namespaces of the
/// groups are disjoint, and merging them overwrites no method.
pub fn build_rpc<F: Copy>(unsafe_calls: F) -> (table: Vec<Registration<F>>)
    ensures
        table@ == dispatch_table(unsafe_calls),
        forall|i: int, j: int|
            0 <= i < j < table@.len() ==> (#[trigger] table@[i]).group != (
            #[trigger] table@[j]).group,
{
    let mut table: Vec<Registration<F>> = Vec::new();
    table.push(Registration { group: MethodGroup::System, unsafe_calls });
    table.push(Registration { group: MethodGroup::TransactionPayment, unsafe_calls });
    table.push(Registration { group: MethodGroup::RootOfTrust, unsafe_calls });
    assert(table@ =~= dispatch_table(unsafe_calls));
    table
}

} // verus!
