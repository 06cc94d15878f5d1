pub mod hook_chain;
pub mod local_blocks;
pub mod other_blocks;
pub mod replay_queue;

use vstd::prelude::*;

use crate::plugin::events::local_blocks::{SuppressionState, SuppressionTracker};
use crate::plugin::events::hook_chain::HookError;
use crate::plugin::events::other_blocks::{BlockUpdateInterceptor, freshly_hooked};
use crate::plugin::networking::packet::{BlockPos, Packet};

verus! {

/// The block hit that player `player_id` makes by setting the block at `pos` to
/// `block`: none when the new block is the empty block.
pub open spec fn local_hit(player_id: u8, block: u16, pos: BlockPos) -> Option<Packet> {
    if block == 0 {
        None
    } else {
        Some(Packet { player_id, block_pos: pos })
    }
}

/// The local player changed the block at `pos` to `block`.
pub fn on_block_changed(player_id: u8, block: u16, pos: BlockPos) -> (r: Option<Packet>)
    ensures
        r == local_hit(player_id, block, pos),
{
    if block == 0 {
        None
    } else {
        Some(Packet { player_id, block_pos: pos })
    }
}

/// The block-event side of the plugin: the sound suppression and the hooks on
/// block updates.
pub struct Events<H, L> {
    pub suppression: SuppressionTracker,
    pub interceptor: BlockUpdateInterceptor<H, L>,
}

/// Sets up sound suppression and places the block-update hooks in front of what
/// their slots hold, keeping both in `state`. While `state` is set up already,
/// nothing is touched and the call fails: a slot is never wrapped twice.
pub fn initialize<H: Copy, L: Copy>(
    state: &mut Option<Events<H, L>>,
    silent: u8,
    set_block_slot: &mut Option<H>,
    bulk_block_update_slot: &mut Option<H>,
    lighting_slot: &mut Option<L>,
    set_block_hook: H,
    bulk_block_update_hook: H,
    lighting_hook: L,
) -> (r: Result<(), HookError>)
    ensures
        *old(state) is Some ==> {
            &&& r == Err::<(), HookError>(HookError::AlreadyInstalled)
            &&& *final(state) == *old(state)
            &&& *final(set_block_slot) == *old(set_block_slot)
            &&& *final(bulk_block_update_slot) == *old(bulk_block_update_slot)
            &&& *final(lighting_slot) == *old(lighting_slot)
        },
        *old(state) is None ==> {
            &&& r is Ok
            &&& *final(state) is Some
            &&& freshly_hooked(
                final(state).unwrap().interceptor,
                *old(set_block_slot),
                *old(bulk_block_update_slot),
                *old(lighting_slot),
            )
            &&& final(state).unwrap().suppression.spec_state() == SuppressionState::Idle
            &&& final(state).unwrap().suppression.silent() == silent
            &&& *final(set_block_slot) == Some(set_block_hook)
            &&& *final(bulk_block_update_slot) == Some(bulk_block_update_hook)
            &&& *final(lighting_slot) == Some(lighting_hook)
        },
{
    if state.is_some() {
        return Err(HookError::AlreadyInstalled);
    }
    let mut hooks: Option<BlockUpdateInterceptor<H, L>> = None;
    let _ = other_blocks::initialize(
        &mut hooks,
        set_block_slot,
        bulk_block_update_slot,
        lighting_slot,
        set_block_hook,
        bulk_block_update_hook,
        lighting_hook,
    );
    match hooks {
        Some(interceptor) => {
            let suppression = local_blocks::initialize(silent);
            *state = Some(Events { suppression, interceptor });
            Ok(())
        },
        None => Err(HookError::AlreadyInstalled),
    }
}

/// Tears the block-event side down: every hooked slot gets back what it held
/// before, waiting updates are dropped and a pending suppression is discarded.
/// Without a set-up `state` nothing is touched and the call fails.
pub fn free<H: Copy, L: Copy>(
    state: &mut Option<Events<H, L>>,
    set_block_slot: &mut Option<H>,
    bulk_block_update_slot: &mut Option<H>,
    lighting_slot: &mut Option<L>,
) -> (r: Result<(), HookError>)
    requires
        *old(state) is Some ==> old(state).unwrap().interceptor.wf(),
    ensures
        *final(state) is None,
        *old(state) is None ==> {
            &&& r == Err::<(), HookError>(HookError::NotInstalled)
            &&& *final(set_block_slot) == *old(set_block_slot)
            &&& *final(bulk_block_update_slot) == *old(bulk_block_update_slot)
            &&& *final(lighting_slot) == *old(lighting_slot)
        },
        *old(state) is Some ==> {
            &&& r is Ok
            &&& *final(set_block_slot) == old(state).unwrap().interceptor.set_block_previous()
            &&& *final(bulk_block_update_slot) == old(
                state,
            ).unwrap().interceptor.bulk_block_update_previous()
            &&& *final(lighting_slot) == old(state).unwrap().interceptor.lighting_previous()
        },
{
    match state.take() {
        Some(events) => {
            let Events { mut suppression, interceptor } = events;
            local_blocks::free(&mut suppression);
            let mut hooks = Some(interceptor);
            other_blocks::free(&mut hooks, set_block_slot, bulk_block_update_slot, lighting_slot)
        },
        None => Err(HookError::NotInstalled),
    }
}

} // verus!
