use toolgun::plugin::events::hook_chain::{forward, HookChain, HookError};
use toolgun::plugin::events::other_blocks;
use toolgun::plugin::networking::packet::{BlockPos, Packet};

#[test]
fn install_captures_and_uninstall_restores() {
    let mut slot: Option<u32> = Some(1);
    let mut chain: HookChain<u32> = HookChain::new();
    assert_eq!(chain.previous(), None);
    assert_eq!(chain.install(&mut slot, 9), Ok(()));
    assert_eq!(slot, Some(9));
    assert_eq!(chain.previous(), Some(1));

    slot = Some(5);
    assert_eq!(chain.uninstall(&mut slot), Ok(()));
    assert_eq!(slot, Some(1));
    assert_eq!(chain.previous(), None);
}

#[test]
fn install_over_empty_slot_restores_empty() {
    let mut slot: Option<u32> = None;
    let mut chain: HookChain<u32> = HookChain::new();
    assert_eq!(chain.install(&mut slot, 4), Ok(()));
    assert_eq!(slot, Some(4));
    assert_eq!(chain.previous(), None);
    assert_eq!(chain.uninstall(&mut slot), Ok(()));
    assert_eq!(slot, None);
}

#[test]
fn second_install_is_refused() {
    let mut slot: Option<u32> = Some(1);
    let mut chain: HookChain<u32> = HookChain::new();
    assert_eq!(chain.install(&mut slot, 2), Ok(()));
    assert_eq!(chain.install(&mut slot, 3), Err(HookError::AlreadyInstalled));
    assert_eq!(slot, Some(2));
    assert_eq!(chain.previous(), Some(1));
}

#[test]
fn uninstall_without_install_is_refused() {
    let mut slot: Option<u32> = Some(1);
    let mut chain: HookChain<u32> = HookChain::new();
    assert_eq!(chain.uninstall(&mut slot), Err(HookError::NotInstalled));
    assert_eq!(slot, Some(1));
}

#[test]
fn forward_to_nothing_is_a_no_op() {
    assert!(forward::<u32>(None, vec![1, 2]).is_none());
}

#[test]
fn forward_to_handler_calls_it_once() {
    fn handler(data: &mut Vec<u8>) {
        data[0] += 1;
    }
    let mut calls = 0;
    if let Some(call) = forward(Some(handler as fn(&mut Vec<u8>)), vec![1, 2]) {
        let mut payload = call.payload;
        (call.handler)(&mut payload);
        calls += 1;
        assert_eq!(payload, vec![2, 2]);
    }
    assert_eq!(calls, 1);
}

#[test]
fn interceptor_queues_and_replays_through_previous_handlers() {
    let mut set_slot: Option<u32> = Some(100);
    let mut bulk_slot: Option<u32> = Some(200);
    let mut lighting_slot: Option<u8> = None;
    let mut state = None;
    assert_eq!(
        other_blocks::initialize(&mut state, &mut set_slot, &mut bulk_slot, &mut lighting_slot, 1, 2, 3),
        Ok(())
    );
    assert_eq!((set_slot, bulk_slot, lighting_slot), (Some(1), Some(2), Some(3)));
    let hooks = state.as_mut().unwrap();

    for i in 0..5u8 {
        hooks.on_bulk_block_update(vec![i]);
    }
    hooks.on_set_block(vec![42]);
    assert_eq!(hooks.pending_len(), 6);

    let first = hooks.tick(0).unwrap();
    assert_eq!((first.handler, first.payload), (200, vec![0]));
    assert!(hooks.tick(43).is_none());
    let second = hooks.tick(44).unwrap();
    assert_eq!((second.handler, second.payload), (200, vec![1]));
    assert_eq!(hooks.pending_len(), 4);

    assert_eq!(
        other_blocks::free(&mut state, &mut set_slot, &mut bulk_slot, &mut lighting_slot),
        Ok(())
    );
    assert!(state.is_none());
    assert_eq!((set_slot, bulk_slot, lighting_slot), (Some(100), Some(200), None));
}

#[test]
fn lighting_hook_reports_placements_only() {
    let mut set_slot: Option<u32> = None;
    let mut bulk_slot: Option<u32> = None;
    let mut lighting_slot: Option<u8> = Some(8);
    let mut state = None;
    assert_eq!(
        other_blocks::initialize(&mut state, &mut set_slot, &mut bulk_slot, &mut lighting_slot, 1, 2, 3),
        Ok(())
    );
    let hooks = state.as_ref().unwrap();
    let pos = BlockPos { x: 1, y: 2, z: 3 };

    let placed = hooks.on_lighting_block_changed(255, pos, 0, 5);
    assert_eq!(placed.forward_to, Some(8));
    assert_eq!(placed.hit, Some(Packet { player_id: 255, block_pos: pos }));

    let replaced = hooks.on_lighting_block_changed(255, pos, 4, 5);
    assert_eq!(replaced.forward_to, Some(8));
    assert_eq!(replaced.hit, None);

    let removed = hooks.on_lighting_block_changed(255, pos, 5, 0);
    assert_eq!(removed.hit, None);
}

#[test]
fn second_initialize_never_wraps_twice() {
    let mut set_slot: Option<u32> = Some(100);
    let mut bulk_slot: Option<u32> = Some(200);
    let mut lighting_slot: Option<u8> = Some(9);
    let mut state = None;
    assert_eq!(
        other_blocks::initialize(&mut state, &mut set_slot, &mut bulk_slot, &mut lighting_slot, 1, 2, 3),
        Ok(())
    );
    assert_eq!(
        other_blocks::initialize(&mut state, &mut set_slot, &mut bulk_slot, &mut lighting_slot, 4, 5, 6),
        Err(HookError::AlreadyInstalled)
    );
    assert_eq!((set_slot, bulk_slot, lighting_slot), (Some(1), Some(2), Some(3)));

    let hooks = state.as_mut().unwrap();
    hooks.on_set_block(vec![7]);
    let call = hooks.tick(0).unwrap();
    assert_eq!((call.handler, call.payload), (100, vec![7]));
    assert_eq!(hooks.on_lighting_block_changed(255, BlockPos { x: 0, y: 0, z: 0 }, 0, 1).forward_to, Some(9));

    assert_eq!(
        other_blocks::free(&mut state, &mut set_slot, &mut bulk_slot, &mut lighting_slot),
        Ok(())
    );
    assert_eq!((set_slot, bulk_slot, lighting_slot), (Some(100), Some(200), Some(9)));
}

#[test]
fn free_without_initialize_is_refused() {
    let mut set_slot: Option<u32> = Some(100);
    let mut bulk_slot: Option<u32> = None;
    let mut lighting_slot: Option<u8> = Some(9);
    let mut state: Option<other_blocks::BlockUpdateInterceptor<u32, u8>> = None;
    assert_eq!(
        other_blocks::free(&mut state, &mut set_slot, &mut bulk_slot, &mut lighting_slot),
        Err(HookError::NotInstalled)
    );
    assert_eq!((set_slot, bulk_slot, lighting_slot), (Some(100), None, Some(9)));
}
