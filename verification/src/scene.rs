//! The one-shot guard that puts a loaded scene into the world exactly once.

use vstd::prelude::*;

verus! {

/// Remembers whether the scene has been put into the world.
#[derive(Clone, Copy, Debug, PartialEq, Eq, Structural)]
pub struct SpawnLatch {
    pub spawned: bool,
}

impl SpawnLatch {
    /// Whether a poll that finds the scene `ready` has to spawn it: only
    /// the first such poll does.
    pub open spec fn spawns_on(self, ready: bool) -> bool {
        !self.spawned && ready
    }

    /// The latch after a poll that found the scene `ready` or not. Once
    /// closed it stays closed; a scene that never gets ready never closes
    /// it.
    pub open spec fn after_poll(self, ready: bool) -> SpawnLatch {
        SpawnLatch { spawned: self.spawned || ready }
    }

    /// The latch after a run of polls, first to last.
    pub open spec fn after_polls(self, polls: Seq<bool>) -> SpawnLatch
        decreases polls.len(),
    {
        if polls.len() == 0 {
            self
        } else {
            self.after_polls(polls.drop_last()).after_poll(polls.last())
        }
    }

    /// How many polls of a run spawn the scene.
    pub open spec fn spawn_count(self, polls: Seq<bool>) -> nat
        decreases polls.len(),
    {
        if polls.len() == 0 {
            0
        } else {
            let before = polls.drop_last();
            let last: nat = if self.after_polls(before).spawns_on(polls.last()) {
                1
            } else {
                0
            };
            self.spawn_count(before) + last
        }
    }

    /// One poll per frame: tells whether the caller has to spawn the scene
    /// now, and remembers that it did.
    pub fn poll(&mut self, ready: bool) -> (spawn: bool)
        ensures
            spawn == old(self).spawns_on(ready),
            *final(self) == old(self).after_poll(ready),
    {
        if self.spawned {
            return false;
        }
        if ready {
            self.spawned = true;
            return true;
        }
        false
    }
}

impl Default for SpawnLatch {
    /// Nothing has been spawned yet.
    fn default() -> (latch: SpawnLatch)
        ensures
            !latch.spawned,
    {
        SpawnLatch { spawned: false }
    }
}

/// A run holds a ready poll exactly if its last poll is ready or the run
/// before it holds one.
proof fn lemma_ready_poll_is_last_or_earlier(polls: Seq<bool>)
    requires
        polls.len() > 0,
    ensures
        polls.contains(true) == (polls.last() || polls.drop_last().contains(true)),
{
    let before = polls.drop_last();
    if polls.last() {
        assert(polls[polls.len() - 1] == true);
    }
    if polls.contains(true) {
        let i = choose|i: int| 0 <= i < polls.len() && polls[i] == true;
        if i < polls.len() - 1 {
            assert(before[i] == true);
        }
    }
    if before.contains(true) {
        let i = choose|i: int| 0 <= i < before.len() && before[i] == true;
        assert(polls[i] == true);
    }
}

/// Over any run of polls the latch is closed afterwards exactly if it was
/// closed before or some poll found the scene ready.
pub proof fn lemma_latch_closes_on_first_ready(latch: SpawnLatch, polls: Seq<bool>)
    ensures
        latch.after_polls(polls).spawned == (latch.spawned || polls.contains(true)),
    decreases polls.len(),
{
    if polls.len() > 0 {
        lemma_latch_closes_on_first_ready(latch, polls.drop_last());
        lemma_ready_poll_is_last_or_earlier(polls);
    }
}

/// The scene is spawned exactly once if it ever gets ready, and never if
/// it does not: a fresh latch spawns on one poll of a run that holds a
/// ready poll, on none of a run that holds no such poll, and a closed
/// latch on none at all.
pub proof fn lemma_spawns_exactly_once(latch: SpawnLatch, polls: Seq<bool>)
    ensures
        latch.spawn_count(polls) == if !latch.spawned && polls.contains(true) {
            1nat
        } else {
            0nat
        },
    decreases polls.len(),
{
    if polls.len() > 0 {
        let before = polls.drop_last();
        lemma_spawns_exactly_once(latch, before);
        lemma_latch_closes_on_first_ready(latch, before);
        lemma_ready_poll_is_last_or_earlier(polls);
    }
}

} // verus!
