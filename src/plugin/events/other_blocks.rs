use vstd::prelude::*;

use crate::plugin::events::hook_chain::{HookChain, HookError, HostCall};
use crate::plugin::events::replay_queue::{Captured, ReplayQueue, pushed, eligible_at, deadline, pacing_delay_spec};
use crate::plugin::networking::packet::{BlockPos, Packet};

verus! {

/// What the lighting hook does for one block change.
pub struct LightingOutcome<L> {
    /// The handler that was in place before the hook, to be called with the same
    /// arguments first.
    pub forward_to: Option<L>,
    /// The block hit to report, when the change put a block where there was none.
    pub hit: Option<Packet>,
}

/// The block hit that a change from `old_block` to `new_block` at `pos` makes:
/// one when a block is placed into empty space.
pub open spec fn placement_hit(player_id: u8, pos: BlockPos, old_block: u16, new_block: u16) -> Option<
    Packet,
> {
    if old_block == 0 && new_block != 0 {
        Some(Packet { player_id, block_pos: pos })
    } else {
        None
    }
}

/// Hooks in front of the host's set-block and bulk-block-update handlers and its
/// lighting update, with the queue through which block updates are replayed.
pub struct BlockUpdateInterceptor<H, L> {
    set_block: HookChain<H>,
    bulk_block_update: HookChain<H>,
    lighting: HookChain<L>,
    queue: ReplayQueue<H>,
}

impl<H: Copy, L: Copy> BlockUpdateInterceptor<H, L> {
    pub closed spec fn wf(&self) -> bool {
        &&& self.set_block.is_installed()
        &&& self.bulk_block_update.is_installed()
        &&& self.lighting.is_installed()
        &&& self.queue.wf()
    }

    /// The set-block handler in place before the hook.
    pub closed spec fn set_block_previous(&self) -> Option<H> {
        self.set_block.captured()
    }

    /// The bulk-block-update handler in place before the hook.
    pub closed spec fn bulk_block_update_previous(&self) -> Option<H> {
        self.bulk_block_update.captured()
    }

    /// The lighting handler in place before the hook.
    pub closed spec fn lighting_previous(&self) -> Option<L> {
        self.lighting.captured()
    }

    /// The captured updates waiting to be replayed, oldest first.
    pub closed spec fn pending(&self) -> Seq<Captured<H>> {
        self.queue.pending()
    }

    pub closed spec fn queue_capacity(&self) -> nat {
        self.queue.capacity()
    }

    /// The earliest time at which the next update may be replayed.
    pub closed spec fn next_eligible(&self) -> Option<u64> {
        self.queue.next_eligible()
    }

    /// Number of updates waiting.
    pub fn pending_len(&self) -> (r: usize)
        requires
            self.wf(),
        ensures
            r as nat == self.pending().len(),
    {
        self.queue.len()
    }

    /// The set-block hook fired with the raw `payload` of one update.
    pub fn on_set_block(&mut self, payload: Vec<u8>)
        requires
            old(self).wf(),
        ensures
            final(self).wf(),
            final(self).pending() == pushed(
                old(self).pending(),
                old(self).queue_capacity(),
                Captured { forward_handler: old(self).set_block_previous(), payload },
            ),
            final(self).queue_capacity() == old(self).queue_capacity(),
            final(self).next_eligible() == old(self).next_eligible(),
            final(self).set_block_previous() == old(self).set_block_previous(),
            final(self).bulk_block_update_previous() == old(self).bulk_block_update_previous(),
            final(self).lighting_previous() == old(self).lighting_previous(),
    {
        let previous = self.set_block.previous();
        let _ = self.queue.enqueue(previous, payload);
    }

    /// The bulk-block-update hook fired with the raw `payload` of one update.
    pub fn on_bulk_block_update(&mut self, payload: Vec<u8>)
        requires
            old(self).wf(),
        ensures
            final(self).wf(),
            final(self).pending() == pushed(
                old(self).pending(),
                old(self).queue_capacity(),
                Captured { forward_handler: old(self).bulk_block_update_previous(), payload },
            ),
            final(self).queue_capacity() == old(self).queue_capacity(),
            final(self).next_eligible() == old(self).next_eligible(),
            final(self).set_block_previous() == old(self).set_block_previous(),
            final(self).bulk_block_update_previous() == old(self).bulk_block_update_previous(),
            final(self).lighting_previous() == old(self).lighting_previous(),
    {
        let previous = self.bulk_block_update.previous();
        let _ = self.queue.enqueue(previous, payload);
    }

    /// One scheduler tick at `now` (milliseconds): replays at most one waiting
    /// update, as `ReplayQueue::drain_tick` does.
    pub fn tick(&mut self, now: u64) -> (r: Option<HostCall<H>>)
        requires
            old(self).wf(),
        ensures
            final(self).wf(),
            final(self).queue_capacity() == old(self).queue_capacity(),
            final(self).set_block_previous() == old(self).set_block_previous(),
            final(self).bulk_block_update_previous() == old(self).bulk_block_update_previous(),
            final(self).lighting_previous() == old(self).lighting_previous(),
            !eligible_at(old(self).next_eligible(), now) ==> {
                &&& r is None
                &&& final(self).pending() == old(self).pending()
                &&& final(self).next_eligible() == old(self).next_eligible()
            },
            eligible_at(old(self).next_eligible(), now) && old(self).pending().len() == 0 ==> {
                &&& r is None
                &&& final(self).pending() == old(self).pending()
                &&& final(self).next_eligible() is None
            },
            eligible_at(old(self).next_eligible(), now) && old(self).pending().len() > 0 ==> {
                &&& r == crate::plugin::events::hook_chain::forwarded(
                    old(self).pending()[0].forward_handler,
                    old(self).pending()[0].payload,
                )
                &&& final(self).pending() == old(self).pending().drop_first()
                &&& final(self).next_eligible() == if old(self).pending().len() == 1 {
                    None
                } else {
                    Some(deadline(now, pacing_delay_spec(old(self).pending().len())))
                }
            },
    {
        self.queue.drain_tick(now)
    }

    /// The lighting hook fired for a change at `pos` from `old_block` to
    /// `new_block`, seen by player `player_id`.
    pub fn on_lighting_block_changed(
        &self,
        player_id: u8,
        pos: BlockPos,
        old_block: u16,
        new_block: u16,
    ) -> (r: LightingOutcome<L>)
        requires
            self.wf(),
        ensures
            r.forward_to == self.lighting_previous(),
            r.hit == placement_hit(player_id, pos, old_block, new_block),
    {
        let forward_to = self.lighting.previous();
        let hit = if old_block == 0 && new_block != 0 {
            Some(Packet { player_id, block_pos: pos })
        } else {
            None
        };
        LightingOutcome { forward_to, hit }
    }
}

/// An interceptor just placed in front of `set_block`, `bulk_block_update` and
/// `lighting`, with nothing queued.
pub open spec fn freshly_hooked<H: Copy, L: Copy>(
    interceptor: BlockUpdateInterceptor<H, L>,
    set_block: Option<H>,
    bulk_block_update: Option<H>,
    lighting: Option<L>,
) -> bool {
    &&& interceptor.wf()
    &&& interceptor.set_block_previous() == set_block
    &&& interceptor.bulk_block_update_previous() == bulk_block_update
    &&& interceptor.lighting_previous() == lighting
    &&& interceptor.pending() == Seq::<Captured<H>>::empty()
    &&& interceptor.next_eligible() is None
    &&& interceptor.queue_capacity() == usize::MAX as nat
}

/// Places the three hooks, each in front of what its slot holds, with an empty
/// replay queue, and keeps them in `state`. While `state` holds hooks already,
/// nothing is touched and the call fails: a slot is never wrapped twice.
pub fn initialize<H: Copy, L: Copy>(
    state: &mut Option<BlockUpdateInterceptor<H, L>>,
    set_block_slot: &mut Option<H>,
    bulk_block_update_slot: &mut Option<H>,
    lighting_slot: &mut Option<L>,
    set_block_hook: H,
    bulk_block_update_hook: H,
    lighting_hook: L,
) -> (r: Result<(), HookError>)
    ensures
        *old(state) is Some ==> {
            &&& r == Err::<(), HookError>(HookError::AlreadyInstalled)
            &&& *final(state) == *old(state)
            &&& *final(set_block_slot) == *old(set_block_slot)
            &&& *final(bulk_block_update_slot) == *old(bulk_block_update_slot)
            &&& *final(lighting_slot) == *old(lighting_slot)
        },
        *old(state) is None ==> {
            &&& r is Ok
            &&& *final(state) is Some
            &&& freshly_hooked(
                final(state).unwrap(),
                *old(set_block_slot),
                *old(bulk_block_update_slot),
                *old(lighting_slot),
            )
            &&& *final(set_block_slot) == Some(set_block_hook)
            &&& *final(bulk_block_update_slot) == Some(bulk_block_update_hook)
            &&& *final(lighting_slot) == Some(lighting_hook)
        },
{
    if state.is_some() {
        return Err(HookError::AlreadyInstalled);
    }
    let mut set_block = HookChain::new();
    let mut bulk_block_update = HookChain::new();
    let mut lighting = HookChain::new();
    let _ = set_block.install(set_block_slot, set_block_hook);
    let _ = bulk_block_update.install(bulk_block_update_slot, bulk_block_update_hook);
    let _ = lighting.install(lighting_slot, lighting_hook);
    *state = Some(
        BlockUpdateInterceptor { set_block, bulk_block_update, lighting, queue: ReplayQueue::new() },
    );
    Ok(())
}

/// Removes the three hooks kept in `state`, putting back what each slot held
/// before, and drops the waiting updates without replaying them. Without hooks
/// in `state` nothing is touched and the call fails.
pub fn free<H: Copy, L: Copy>(
    state: &mut Option<BlockUpdateInterceptor<H, L>>,
    set_block_slot: &mut Option<H>,
    bulk_block_update_slot: &mut Option<H>,
    lighting_slot: &mut Option<L>,
) -> (r: Result<(), HookError>)
    requires
        *old(state) is Some ==> old(state).unwrap().wf(),
    ensures
        *final(state) is None,
        *old(state) is None ==> {
            &&& r == Err::<(), HookError>(HookError::NotInstalled)
            &&& *final(set_block_slot) == *old(set_block_slot)
            &&& *final(bulk_block_update_slot) == *old(bulk_block_update_slot)
            &&& *final(lighting_slot) == *old(lighting_slot)
        },
        *old(state) is Some ==> {
            &&& r is Ok
            &&& *final(set_block_slot) == old(state).unwrap().set_block_previous()
            &&& *final(bulk_block_update_slot) == old(
                state,
            ).unwrap().bulk_block_update_previous()
            &&& *final(lighting_slot) == old(state).unwrap().lighting_previous()
        },
{
    match state.take() {
        Some(interceptor) => {
            let BlockUpdateInterceptor { mut set_block, mut bulk_block_update, mut lighting, queue } =
                interceptor;
            let _ = bulk_block_update.uninstall(bulk_block_update_slot);
            let _ = set_block.uninstall(set_block_slot);
            let _ = lighting.uninstall(lighting_slot);
            Ok(())
        },
        None => Err(HookError::NotInstalled),
    }
}

} // verus!
