pub mod events;
pub mod networking;
pub mod sound;

use vstd::prelude::*;

use crate::plugin::events::Events;
use crate::plugin::events::local_blocks::SuppressionState;
use crate::plugin::events::hook_chain::HookError;
use crate::plugin::events::other_blocks::freshly_hooked;
use crate::plugin::networking::Networking;
use crate::plugin::networking::packet::message_of;

verus! {

/// The plugin's state for one game session.
pub struct Plugin<H, L> {
    pub events: Events<H, L>,
    pub networking: Networking,
}

/// Starts the plugin into `state`: block events always, the plugin channel only
/// when playing on a server. While `state` holds a running plugin, nothing is
/// touched and the call fails: a slot is never wrapped twice.
pub fn initialize<H: Copy, L: Copy>(
    state: &mut Option<Plugin<H, L>>,
    single_player: bool,
    silent: u8,
    set_block_slot: &mut Option<H>,
    bulk_block_update_slot: &mut Option<H>,
    lighting_slot: &mut Option<L>,
    set_block_hook: H,
    bulk_block_update_hook: H,
    lighting_hook: L,
) -> (r: Result<(), HookError>)
    ensures
        *old(state) is Some ==> {
            &&& r == Err::<(), HookError>(HookError::AlreadyInstalled)
            &&& *final(state) == *old(state)
            &&& *final(set_block_slot) == *old(set_block_slot)
            &&& *final(bulk_block_update_slot) == *old(bulk_block_update_slot)
            &&& *final(lighting_slot) == *old(lighting_slot)
        },
        *old(state) is None ==> {
            &&& r is Ok
            &&& *final(state) is Some
            &&& final(state).unwrap().networking.is_active() == !single_player
            &&& freshly_hooked(
                final(state).unwrap().events.interceptor,
                *old(set_block_slot),
                *old(bulk_block_update_slot),
                *old(lighting_slot),
            )
            &&& final(state).unwrap().events.suppression.spec_state() == SuppressionState::Idle
            &&& final(state).unwrap().events.suppression.silent() == silent
            &&& *final(set_block_slot) == Some(set_block_hook)
            &&& *final(bulk_block_update_slot) == Some(bulk_block_update_hook)
            &&& *final(lighting_slot) == Some(lighting_hook)
        },
{
    if state.is_some() {
        return Err(HookError::AlreadyInstalled);
    }
    let mut block_events: Option<Events<H, L>> = None;
    let _ = events::initialize(
        &mut block_events,
        silent,
        set_block_slot,
        bulk_block_update_slot,
        lighting_slot,
        set_block_hook,
        bulk_block_update_hook,
        lighting_hook,
    );
    match block_events {
        Some(events) => {
            let networking = networking::initialize(single_player);
            *state = Some(Plugin { events, networking });
            Ok(())
        },
        None => Err(HookError::AlreadyInstalled),
    }
}

/// A new map has loaded: on a server, the message that announces this peer on the
/// plugin channel.
pub fn on_new_map_loaded<H, L>(plugin: &Plugin<H, L>) -> (r: Option<Vec<u8>>)
    ensures
        !plugin.networking.is_active() ==> r is None,
        plugin.networking.is_active() ==> r is Some && r.unwrap()@ == message_of(
            Seq::<u8>::empty(),
        ),
{
    plugin.networking.on_new_map_loaded()
}

/// Stops the plugin kept in `state`: the channel is left and every hooked slot
/// gets back what it held before the plugin started. Without a running plugin
/// nothing is touched and the call fails.
pub fn free<H: Copy, L: Copy>(
    state: &mut Option<Plugin<H, L>>,
    set_block_slot: &mut Option<H>,
    bulk_block_update_slot: &mut Option<H>,
    lighting_slot: &mut Option<L>,
) -> (r: Result<(), HookError>)
    requires
        *old(state) is Some ==> old(state).unwrap().events.interceptor.wf(),
    ensures
        *final(state) is None,
        *old(state) is None ==> {
            &&& r == Err::<(), HookError>(HookError::NotInstalled)
            &&& *final(set_block_slot) == *old(set_block_slot)
            &&& *final(bulk_block_update_slot) == *old(bulk_block_update_slot)
            &&& *final(lighting_slot) == *old(lighting_slot)
        },
        *old(state) is Some ==> {
            &&& r is Ok
            &&& *final(set_block_slot) == old(
                state,
            ).unwrap().events.interceptor.set_block_previous()
            &&& *final(bulk_block_update_slot) == old(
                state,
            ).unwrap().events.interceptor.bulk_block_update_previous()
            &&& *final(lighting_slot) == old(state).unwrap().events.interceptor.lighting_previous()
        },
{
    match state.take() {
        Some(plugin) => {
            let Plugin { events, mut networking } = plugin;
            networking::free(&mut networking);
            let mut block_events = Some(events);
            events::free(&mut block_events, set_block_slot, bulk_block_update_slot, lighting_slot)
        },
        None => Err(HookError::NotInstalled),
    }
}

} // verus!
