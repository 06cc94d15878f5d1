use vstd::prelude::*;

verus! {

/// Misuse of a hook's lifecycle.
#[derive(Clone, Copy, Debug, PartialEq, Eq, Structural)]
pub enum HookError {
    /// `install` was called while the hook was already installed.
    AlreadyInstalled,
    /// `uninstall` was called without a matching `install`.
    NotInstalled,
}

/// One hook placed in front of a host-owned dispatch slot.
///
/// While installed it holds the handler that occupied the slot before, so that
/// calls can be forwarded to it and the slot restored on teardown.
pub struct HookChain<H> {
    captured: Option<Option<H>>,
}

/// A call of a host handler that is still to be made.
pub struct HostCall<H> {
    pub handler: H,
    pub payload: Vec<u8>,
}

/// What `forward` hands on: a call of `previous` on `payload`, or nothing.
pub open spec fn forwarded<H>(previous: Option<H>, payload: Vec<u8>) -> Option<HostCall<H>> {
    match previous {
        Some(h) => Some(HostCall { handler: h, payload }),
        None => None,
    }
}

/// Forwards `payload` to the handler captured before a hook: a call of it when
/// there is one, nothing when the slot was empty (a valid end of the chain).
pub fn forward<H>(previous: Option<H>, payload: Vec<u8>) -> (r: Option<HostCall<H>>)
    ensures
        r == forwarded(previous, payload),
{
    match previous {
        Some(handler) => Some(HostCall { handler, payload }),
        None => None,
    }
}

impl<H> HookChain<H> {
    /// Whether the hook currently occupies its slot.
    pub closed spec fn is_installed(&self) -> bool {
        self.captured is Some
    }

    /// The handler that occupied the slot when the hook was installed.
    pub closed spec fn captured(&self) -> Option<H> {
        self.captured.unwrap()
    }

    /// A hook that is not installed.
    pub fn new() -> (r: Self)
        ensures
            !r.is_installed(),
    {
        HookChain { captured: None }
    }

    /// Places `hook` in `slot`, keeping what was there to forward to and to restore.
    pub fn install(&mut self, slot: &mut Option<H>, hook: H) -> (r: Result<(), HookError>)
        ensures
            old(self).is_installed() ==> {
                &&& r == Err::<(), HookError>(HookError::AlreadyInstalled)
                &&& *final(slot) == *old(slot)
                &&& *final(self) == *old(self)
            },
            !old(self).is_installed() ==> {
                &&& r is Ok
                &&& *final(slot) == Some(hook)
                &&& final(self).is_installed()
                &&& final(self).captured() == *old(slot)
            },
    {
        if self.captured.is_some() {
            return Err(HookError::AlreadyInstalled);
        }
        let mut previous = Some(hook);
        core::mem::swap(slot, &mut previous);
        self.captured = Some(previous);
        Ok(())
    }

    /// Puts back into `slot` exactly what `install` found there, whatever the slot
    /// holds now.
    pub fn uninstall(&mut self, slot: &mut Option<H>) -> (r: Result<(), HookError>)
        ensures
            !old(self).is_installed() ==> {
                &&& r == Err::<(), HookError>(HookError::NotInstalled)
                &&& *final(slot) == *old(slot)
                &&& *final(self) == *old(self)
            },
            old(self).is_installed() ==> {
                &&& r is Ok
                &&& *final(slot) == old(self).captured()
                &&& !final(self).is_installed()
            },
    {
        match self.captured.take() {
            Some(previous) => {
                *slot = previous;
                Ok(())
            },
            None => Err(HookError::NotInstalled),
        }
    }
}

impl<H: Copy> HookChain<H> {
    /// The handler to forward to: the captured one while installed, none otherwise.
    pub fn previous(&self) -> (r: Option<H>)
        ensures
            self.is_installed() ==> r == self.captured(),
            !self.is_installed() ==> r is None,
    {
        match self.captured {
            Some(previous) => previous,
            None => None,
        }
    }
}

} // verus!
