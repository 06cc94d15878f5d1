use vstd::prelude::*;

verus! {

/// Playing sounds are kept below this many; the oldest goes when it is reached.
pub const MAX_SINKS: usize = 100;

/// The sounds that are playing, oldest first, so that their listener position
/// can follow the player.
pub struct SinkPool<S> {
    sinks: std::collections::VecDeque<S>,
}

/// The sounds after `sink` starts: when that makes `MAX_SINKS`, the oldest one goes.
pub open spec fn after_play<S>(sinks: Seq<S>, sink: S) -> Seq<S> {
    if sinks.len() + 1 == MAX_SINKS {
        sinks.push(sink).drop_first()
    } else {
        sinks.push(sink)
    }
}

impl<S> SinkPool<S> {
    /// The sounds playing, oldest first.
    pub closed spec fn sinks(&self) -> Seq<S> {
        self.sinks@
    }

    pub closed spec fn wf(&self) -> bool {
        self.sinks@.len() < MAX_SINKS
    }

    /// No sound playing.
    pub fn new() -> (r: Self)
        ensures
            r.wf(),
            r.sinks() == Seq::<S>::empty(),
    {
        SinkPool { sinks: std::collections::VecDeque::new() }
    }

    /// Number of sounds playing.
    pub fn len(&self) -> (r: usize)
        ensures
            r as nat == self.sinks().len(),
    {
        self.sinks.len()
    }

    /// The `i`-th sound, oldest first.
    pub fn get(&self, i: usize) -> (r: &S)
        requires
            i < self.sinks().len(),
        ensures
            *r == self.sinks()[i as int],
    {
        &self.sinks[i]
    }

    /// Keeps `sink`, which has started playing; returns the oldest sound when it had
    /// to go to stay under `MAX_SINKS`.
    pub fn push(&mut self, sink: S) -> (r: Option<S>)
        requires
            old(self).wf(),
        ensures
            final(self).wf(),
            final(self).sinks() == after_play(old(self).sinks(), sink),
            old(self).sinks().len() + 1 == MAX_SINKS ==> r == Some(
                old(self).sinks().push(sink)[0],
            ),
            old(self).sinks().len() + 1 != MAX_SINKS ==> r is None,
    {
        self.sinks.push_back(sink);
        if self.sinks.len() == MAX_SINKS {
            self.sinks.pop_front()
        } else {
            None
        }
    }

    /// Stops keeping every sound.
    pub fn clear(&mut self)
        ensures
            final(self).wf(),
            final(self).sinks() == Seq::<S>::empty(),
    {
        self.sinks.clear();
    }
}

/// Lets go of every playing sound.
pub fn free<S>(pool: &mut SinkPool<S>)
    ensures
        final(pool).wf(),
        final(pool).sinks() == Seq::<S>::empty(),
{
    pool.clear();
}

} // verus!
