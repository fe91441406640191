use vstd::prelude::*;

verus! {

/// Per-thread stack-limit tracker.
///
/// The tracked value is the lowest address the thread's current stack is
/// permitted to use before a checkpoint must switch stacks; it is absent on
/// platforms whose stack bounds cannot be probed.  Each thread owns exactly
/// one tracker for its whole lifetime and is the only one to read or write
/// it, so the state is passed around explicitly and needs no
/// synchronisation.  The one-time probe of the operating system happens
/// outside this core; its result, present or absent, is supplied once at
/// construction and the tracker never invents a limit of its own.
pub struct LimitTracker {
    limit: Option<usize>,
}

impl View for LimitTracker {
    type V = Option<usize>;

    closed spec fn view(&self) -> Option<usize> {
        self.limit
    }
}

impl LimitTracker {
    /// Builds the tracker for a thread from the one-time probe of that
    /// thread's stack bounds; `None` means the platform is unsupported and
    /// every checkpoint will degrade to running its work directly.
    pub fn new(probed: Option<usize>) -> (t: LimitTracker)
        ensures
            t@ == probed,
    {
        LimitTracker { limit: probed }
    }

    /// Reads the current stack limit, if one is tracked.
    pub fn get_stack_limit(&self) -> (l: Option<usize>)
        ensures
            l == self@,
    {
        self.limit
    }

    /// Moves the tracked stack limit to a new boundary address.
    pub fn set_stack_limit(&mut self, l: usize)
        ensures
            final(self)@ == Some(l),
    {
        self.limit = Some(l);
    }
}

} // verus!
