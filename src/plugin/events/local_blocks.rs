use vstd::prelude::*;

verus! {

/// Where the tracker stands between the two phases of one block change.
#[derive(Clone, Copy, Debug, PartialEq, Eq, Structural)]
pub enum SuppressionState {
    /// No change is under way.
    Idle,
    /// A pre-phase muted an entry; this is the value it had.
    AwaitingPost(u8),
}

/// Mutes the step sound of a block kind for the one change that is being
/// applied, and restores it right after.
pub struct SuppressionTracker {
    state: SuppressionState,
    silent: u8,
}

/// The sound table after a pre-phase for a change to `block`.
pub open spec fn pre_table(table: Seq<u8>, block: u16, silent: u8) -> Seq<u8> {
    if block == 0 {
        table
    } else {
        table.update(block as int, silent)
    }
}

/// The tracker's state after a pre-phase for a change to `block`; a second
/// pre-phase before a post-phase replaces what the first captured.
pub open spec fn pre_state(state: SuppressionState, table: Seq<u8>, block: u16) -> SuppressionState {
    if block == 0 {
        state
    } else {
        SuppressionState::AwaitingPost(table[block as int])
    }
}

/// The sound table after a post-phase for a change to `block`.
pub open spec fn post_table(state: SuppressionState, table: Seq<u8>, block: u16) -> Seq<u8> {
    match state {
        SuppressionState::AwaitingPost(value) => if block == 0 {
            table
        } else {
            table.update(block as int, value)
        },
        SuppressionState::Idle => table,
    }
}

/// The tracker's state after a post-phase for a change to `block`.
pub open spec fn post_state(state: SuppressionState, block: u16) -> SuppressionState {
    if block == 0 {
        state
    } else {
        SuppressionState::Idle
    }
}

/// A block id that can index the table; the empty block (0) never does.
pub open spec fn indexes(table: Seq<u8>, block: u16) -> bool {
    block == 0 || (block as int) < table.len()
}

impl SuppressionTracker {
    pub closed spec fn spec_state(&self) -> SuppressionState {
        self.state
    }

    /// The value written into the table to mute an entry.
    pub closed spec fn silent(&self) -> u8 {
        self.silent
    }

    /// An idle tracker that mutes entries with `silent`.
    pub fn new(silent: u8) -> (r: Self)
        ensures
            r.spec_state() == SuppressionState::Idle,
            r.silent() == silent,
    {
        SuppressionTracker { state: SuppressionState::Idle, silent }
    }

    /// Where the tracker stands.
    pub fn state(&self) -> (r: SuppressionState)
        ensures
            r == self.spec_state(),
    {
        self.state
    }

    /// Before the host applies a change to `block`: unless it is the empty block,
    /// remember the block's sound and mute it.
    pub fn pre_phase(&mut self, table: &mut [u8], block: u16)
        requires
            indexes(old(table)@, block),
        ensures
            final(table)@ == pre_table(old(table)@, block, old(self).silent()),
            final(self).spec_state() == pre_state(old(self).spec_state(), old(table)@, block),
            final(self).silent() == old(self).silent(),
    {
        if block == 0 {
            return;
        }
        let i = block as usize;
        self.state = SuppressionState::AwaitingPost(table[i]);
        table[i] = self.silent;
    }

    /// After the host applied a change to `block`: unless it is the empty block,
    /// put back the sound that the pre-phase took, once. Without a pre-phase the
    /// table is left as it is.
    pub fn post_phase(&mut self, table: &mut [u8], block: u16)
        requires
            indexes(old(table)@, block),
        ensures
            final(table)@ == post_table(old(self).spec_state(), old(table)@, block),
            final(self).spec_state() == post_state(old(self).spec_state(), block),
            final(self).silent() == old(self).silent(),
    {
        if block == 0 {
            return;
        }
        if let SuppressionState::AwaitingPost(value) = self.state {
            table[block as usize] = value;
        }
        self.state = SuppressionState::Idle;
    }
}

/// A pre-phase and then a post-phase on the same block kind leave the table as it
/// was and the tracker idle; a further post-phase without a pre-phase changes
/// nothing.
pub proof fn lemma_suppression_take_once(
    state: SuppressionState,
    table: Seq<u8>,
    block: u16,
    silent: u8,
)
    requires
        block != 0,
        (block as int) < table.len(),
    ensures
        ({
            let t1 = pre_table(table, block, silent);
            let s1 = pre_state(state, table, block);
            let t2 = post_table(s1, t1, block);
            let s2 = post_state(s1, block);
            &&& t2 == table
            &&& s2 == SuppressionState::Idle
            &&& post_table(s2, t2, block) == t2
            &&& post_state(s2, block) == s2
        }),
{
    let t1 = pre_table(table, block, silent);
    assert(t1.update(block as int, table[block as int]) =~= table);
}

/// Sets up the tracker for a game session.
pub fn initialize(silent: u8) -> (r: SuppressionTracker)
    ensures
        r.spec_state() == SuppressionState::Idle,
        r.silent() == silent,
{
    SuppressionTracker::new(silent)
}

/// Tears the tracker down: a value captured by a pre-phase that saw no post-phase
/// is discarded, not written back.
pub fn free(tracker: &mut SuppressionTracker)
    ensures
        final(tracker).spec_state() == SuppressionState::Idle,
        final(tracker).silent() == old(tracker).silent(),
{
    tracker.state = SuppressionState::Idle;
}

} // verus!
