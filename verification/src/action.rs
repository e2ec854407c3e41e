use vstd::prelude::*;

verus! {

/// Which pane a toggle command addresses. `BlockAddress` is a reserved
/// placeholder that is not wired to any pane.
#[derive(Clone, Copy, Debug, PartialEq, Eq, Structural)]
pub enum Toggle {
    All,
    TypeHint,
    CallStack,
    SpongeState,
    Input,
    BlockAddress,
}

/// A command delivered by the event loop strictly between frames.
#[derive(Clone, Copy, Debug, PartialEq, Eq, Structural)]
pub enum Action {
    Toggle(Toggle),
    Reset,
}

} // verus!
