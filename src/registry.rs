//! The table from `(scheme, network)` to the handler that understands it.
use vstd::prelude::*;
use crate::types::SupportedEntry;

verus! {

/// The payment logic a handler runs; the exact scheme on an EVM chain is the
/// one there is.
#[derive(Clone, Copy, Debug, PartialEq, Eq, Structural)]
pub enum SchemeKind {
    ExactEvm,
}

/// One registered combination, with the chain id its network stands for.
#[derive(Clone, Debug)]
pub struct SchemeHandler {
    pub scheme: String,
    pub network: String,
    pub chain_id: u64,
    pub kind: SchemeKind,
}

impl SchemeHandler {
    /// Whether this handler is registered under `(scheme, network)`.
    pub open spec fn serves(self, scheme: Seq<char>, network: Seq<char>) -> bool {
        self.scheme@ == scheme && self.network@ == network
    }
}

/// Registered handlers, at most one per `(scheme, network)`, in the order
/// they were registered.
pub struct SchemeRegistry {
    handlers: Vec<SchemeHandler>,
}

impl SchemeRegistry {
    /// The registered handlers in order.
    pub closed spec fn entries(self) -> Seq<SchemeHandler> {
        self.handlers@
    }

    /// No two handlers share a `(scheme, network)`.
    pub open spec fn wf(self) -> bool {
        forall|i: int, j: int|
            0 <= i < j < self.entries().len() ==> !(#[trigger] self.entries()[i]).serves(
                (#[trigger] self.entries()[j]).scheme@,
                self.entries()[j].network@,
            )
    }

    /// Whether some handler serves `(scheme, network)`.
    pub open spec fn has(self, scheme: Seq<char>, network: Seq<char>) -> bool {
        exists|i: int| 0 <= i < self.entries().len() && (#[trigger] self.entries()[i]).serves(scheme, network)
    }

    /// The handler serving `(scheme, network)`, if any.
    pub open spec fn lookup_spec(self, scheme: Seq<char>, network: Seq<char>) -> Option<SchemeHandler> {
        if self.has(scheme, network) {
            Some(
                self.entries()[choose|i: int|
                    0 <= i < self.entries().len() && (#[trigger] self.entries()[i]).serves(scheme, network)],
            )
        } else {
            None
        }
    }

    /// An empty registry.
    pub fn new() -> (r: SchemeRegistry)
        ensures
            r.wf(),
            r.entries().len() == 0,
    {
        SchemeRegistry { handlers: Vec::new() }
    }

    /// Index of the handler serving `(scheme, network)`.
    fn position(&self, scheme: &String, network: &String) -> (r: Option<usize>)
        ensures
            match r {
                Some(i) => i < self.entries().len() && self.entries()[i as int].serves(scheme@, network@),
                None => !self.has(scheme@, network@),
            },
    {
        let mut i: usize = 0;
        while i < self.handlers.len()
            invariant
                i <= self.handlers@.len(),
                forall|j: int| 0 <= j < i ==> !(#[trigger] self.handlers@[j]).serves(scheme@, network@),
            decreases self.handlers@.len() - i,
        {
            if self.handlers[i].scheme == *scheme && self.handlers[i].network == *network {
                return Some(i);
            }
            i = i + 1;
        }
        None
    }

    /// Adds `handler`; refused, leaving the registry as it was, where its
    /// `(scheme, network)` is already served.
    pub fn register(&mut self, handler: SchemeHandler) -> (added: bool)
        requires
            old(self).wf(),
        ensures
            final(self).wf(),
            added == !old(self).has(handler.scheme@, handler.network@),
            added ==> final(self).entries() == old(self).entries().push(handler),
            !added ==> final(self).entries() == old(self).entries(),
    {
        match self.position(&handler.scheme, &handler.network) {
            Some(_) => false,
            None => {
                self.handlers.push(handler);
                true
            },
        }
    }

    /// The handler serving `(scheme, network)`; `None` for a combination
    /// that was never registered.
    pub fn lookup(&self, scheme: &String, network: &String) -> (r: Option<&SchemeHandler>)
        requires
            self.wf(),
        ensures
            match r {
                Some(h) => self.lookup_spec(scheme@, network@) == Some(*h),
                None => self.lookup_spec(scheme@, network@) is None,
            },
    {
        match self.position(scheme, network) {
            Some(i) => {
                proof {
                    let k = choose|k: int|
                        0 <= k < self.entries().len() && (#[trigger] self.entries()[k]).serves(
                            scheme@,
                            network@,
                        );
                    if k < i {
                        assert(!self.entries()[k].serves(
                            self.entries()[i as int].scheme@,
                            self.entries()[i as int].network@,
                        ));
                    } else if k > i {
                        assert(!self.entries()[i as int].serves(
                            self.entries()[k].scheme@,
                            self.entries()[k].network@,
                        ));
                    }
                }
                Some(&self.handlers[i])
            },
            None => None,
        }
    }

    /// The registered combinations, verbatim and in order.
    pub fn supported(&self) -> (r: Vec<SupportedEntry>)
        ensures
            r@.len() == self.entries().len(),
            forall|i: int|
                0 <= i < r@.len() ==> (#[trigger] r@[i]).scheme@ == self.entries()[i].scheme@
                    && r@[i].network@ == self.entries()[i].network@,
    {
        let mut out: Vec<SupportedEntry> = Vec::new();
        let mut i: usize = 0;
        while i < self.handlers.len()
            invariant
                i <= self.handlers@.len(),
                out@.len() == i,
                forall|j: int|
                    0 <= j < i ==> (#[trigger] out@[j]).scheme@ == self.handlers@[j].scheme@
                        && out@[j].network@ == self.handlers@[j].network@,
            decreases self.handlers@.len() - i,
        {
            out.push(
                SupportedEntry {
                    scheme: self.handlers[i].scheme.clone(),
                    network: self.handlers[i].network.clone(),
                },
            );
            i = i + 1;
        }
        out
    }
}

} // verus!
