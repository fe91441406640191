//! Core logic for manually instrumented segmented stacks.
//!
//! A program that recurses deeply can annotate points in its control flow
//! with a "maybe grow the stack here" checkpoint.  Each checkpoint names a
//! red zone (how close to the end of the stack it is allowed to run) and a
//! stack size (how much to allocate if it has reached the end).  When the
//! headroom between the current stack pointer and the tracked stack limit
//! falls below the red zone, a temporary stack is allocated on the heap and
//! switched to for the duration of the checkpoint's work.
//!
//! This crate holds the platform-independent core of that mechanism: the
//! per-thread limit tracker state, the checkpoint decision, and the
//! arithmetic that plans a stack switch (region alignment, the new limit,
//! the entry stack pointer) and restores the prior limit afterwards.  The
//! raw-pointer primitives that read the stack pointer register, transfer
//! control between stacks, and probe the operating system for a thread's
//! stack bounds cannot be expressed here; a thin unverified shell performs
//! them and feeds their plain results (addresses and sizes) to this core.
//!
//! On a platform with no known way to probe the stack bounds the tracker
//! holds no limit, every checkpoint runs its work directly on the native
//! stack, and unbounded recursion can still overflow it; that degradation
//! is deliberate, not a failure.

pub mod grow;
pub mod limit;

pub use grow::align_stack_size;
pub use grow::finish_switch;
pub use grow::maybe_grow;
pub use grow::prepare_switch;
pub use grow::remaining_stack;
pub use grow::GrowDecision;
pub use grow::SavedLimit;
pub use grow::SwitchPlan;
pub use limit::LimitTracker;
