//! Discovery of the swap chain and of the command queue that presents it,
//! before the overlay renderer can be set up.
use vstd::prelude::*;

verus! {

/// What has been discovered so far.
pub enum InitializationContext<S, Q> {
    /// Nothing yet.
    Empty,
    /// The swap chain, still without its command queue.
    WithSwapChain(S),
    /// The swap chain and its command queue.
    Complete(S, Q),
    /// The renderer has been set up; nothing more is recorded.
    Done,
}

/// The state after a swap chain is seen: only an empty context records it.
pub open spec fn after_swap_chain<S, Q>(c: InitializationContext<S, Q>, swap_chain: S) -> InitializationContext<S, Q> {
    match c {
        InitializationContext::Empty => InitializationContext::WithSwapChain(swap_chain),
        other => other,
    }
}

/// The state after a command queue is seen: it completes a context that has
/// a swap chain, when the queue belongs to that swap chain.
pub open spec fn after_command_queue<S, Q>(c: InitializationContext<S, Q>, queue: Q, belongs: bool) -> InitializationContext<S, Q> {
    match c {
        InitializationContext::WithSwapChain(s) => if belongs {
            InitializationContext::Complete(s, queue)
        } else {
            InitializationContext::WithSwapChain(s)
        },
        other => other,
    }
}

/// The state after set-up: a complete context is done.
pub open spec fn after_done<S, Q>(c: InitializationContext<S, Q>) -> InitializationContext<S, Q> {
    match c {
        InitializationContext::Complete(..) => InitializationContext::Done,
        other => other,
    }
}

impl<S, Q> InitializationContext<S, Q> {
    /// Records the swap chain if none is known yet.
    pub fn insert_swap_chain(&mut self, swap_chain: S)
        ensures
            *final(self) == after_swap_chain(*old(self), swap_chain),
    {
        let mut current = InitializationContext::Empty;
        std::mem::swap(&mut current, self);
        *self = match current {
            InitializationContext::Empty => InitializationContext::WithSwapChain(swap_chain),
            other => other,
        };
    }

    /// The swap chain whose command queue is still sought, if any.
    pub fn awaiting_queue(&self) -> (r: Option<&S>)
        ensures
            r matches Some(s) ==> *self == InitializationContext::<S, Q>::WithSwapChain(*s),
            r is None <==> !(*self is WithSwapChain),
    {
        match self {
            InitializationContext::WithSwapChain(s) => Some(s),
            _ => None,
        }
    }

    /// Records `queue` when a swap chain awaits its queue and `belongs`
    /// tells that `queue` is that swap chain's queue.
    pub fn insert_command_queue(&mut self, queue: Q, belongs: bool)
        ensures
            *final(self) == after_command_queue(*old(self), queue, belongs),
    {
        let mut current = InitializationContext::Empty;
        std::mem::swap(&mut current, self);
        *self = match current {
            InitializationContext::WithSwapChain(s) => if belongs {
                InitializationContext::Complete(s, queue)
            } else {
                InitializationContext::WithSwapChain(s)
            },
            other => other,
        };
    }

    /// The swap chain and its command queue, once both are known.
    pub fn get(&self) -> (r: Option<(&S, &Q)>)
        ensures
            r matches Some(p) ==> *self == InitializationContext::Complete(*p.0, *p.1),
            r is None <==> !(*self is Complete),
    {
        match self {
            InitializationContext::Complete(s, q) => Some((s, q)),
            _ => None,
        }
    }

    /// Marks a complete context as done.
    pub fn done(&mut self)
        ensures
            *final(self) == after_done(*old(self)),
    {
        let mut current = InitializationContext::Empty;
        std::mem::swap(&mut current, self);
        *self = match current {
            InitializationContext::Complete(..) => InitializationContext::Done,
            other => other,
        };
    }
}

/// Once done, a context stays done whatever it is told; and a context only
/// becomes complete from one that has a swap chain, keeping that swap chain.
pub proof fn law_initialization_progress<S, Q>(c: InitializationContext<S, Q>, s: S, q: Q, belongs: bool)
    ensures
        c is Done ==> after_swap_chain(c, s) is Done && after_command_queue(c, q, belongs) is Done
            && after_done(c) is Done,
        !(c is Complete) ==> (after_command_queue(c, q, belongs) matches InitializationContext::Complete(cs, cq)
            ==> c == InitializationContext::<S, Q>::WithSwapChain(cs) && cq == q && belongs),
        c is Complete ==> after_swap_chain(c, s) == c && after_command_queue(c, q, belongs) == c,
{
}

/// The position of the first word of `words` equal to `target`: where a
/// swap chain object holds the pointer to its command queue.
pub fn find_pointer(words: &[usize], target: usize) -> (r: Option<usize>)
    ensures
        r matches Some(i) ==> i < words@.len() && words@[i as int] == target && forall|j: int|
            0 <= j < i ==> words@[j] != target,
        r is None ==> forall|j: int| 0 <= j < words@.len() ==> words@[j] != target,
{
    let mut i: usize = 0;
    while i < words.len()
        invariant
            i <= words@.len(),
            forall|j: int| 0 <= j < i ==> words@[j] != target,
        decreases words.len() - i,
    {
        if words[i] == target {
            return Some(i);
        }
        i = i + 1;
    }
    None
}

} // verus!
