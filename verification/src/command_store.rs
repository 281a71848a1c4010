//! The freshest command per robot from one source.
//!
//! Each source (network, manual) keeps at most one control frame per robot:
//! a newer frame from the same source overwrites the older one in place.
//! There is no queue and no notion of "consumed" — a command stays until it
//! is replaced, so a stalled network keeps transmitting the last known
//! intent instead of silence.

use vstd::prelude::*;

use crate::messages::ControlFrame;

verus! {

/// A mapping from robot id to the most recent control frame this source
/// produced for it, with overwrite-in-place semantics.
pub struct CommandStore {
    /// One slot per possible robot id; `None` means no fresh command
    pub slots: Vec<Option<ControlFrame>>,
}

impl View for CommandStore {
    type V = Seq<Option<ControlFrame>>;

    open spec fn view(&self) -> Seq<Option<ControlFrame>> {
        self.slots@
    }
}

impl CommandStore {
    /// One slot for each of the sixteen addressable robots, and a stored
    /// frame is well formed and keyed by its own robot id.
    pub open spec fn wf(self) -> bool {
        &&& self@.len() == 16
        &&& forall|r: int|
            0 <= r < 16 && #[trigger] self@[r] is Some ==> self@[r]->Some_0.wf()
                && self@[r]->Some_0.robot_id == r
    }

    /// An empty store: no robot has a fresh command.
    pub fn new() -> (r: CommandStore)
        ensures
            r.wf(),
            forall|i: int| 0 <= i < 16 ==> r@[i] is None,
    {
        let mut slots: Vec<Option<ControlFrame>> = Vec::new();
        let mut i: usize = 0;
        while i < 16
            invariant
                i <= 16,
                slots@.len() == i,
                forall|j: int| 0 <= j < i ==> slots@[j] is None,
            decreases 16 - i,
        {
            slots.push(None);
            i = i + 1;
        }
        CommandStore { slots }
    }

    /// Store a frame for its robot, discarding whatever this source had for
    /// that robot before.
    pub fn insert(&mut self, frame: ControlFrame)
        requires
            old(self).wf(),
            frame.wf(),
        ensures
            final(self).wf(),
            final(self)@ == old(self)@.update(frame.robot_id as int, Some(frame)),
    {
        let idx = frame.robot_id as usize;
        self.slots.set(idx, Some(frame));
    }

    /// The stored command for one robot, if any.
    pub fn get(&self, robot_id: u8) -> (r: Option<ControlFrame>)
        requires
            self.wf(),
            robot_id < 16,
        ensures
            r == self@[robot_id as int],
    {
        self.slots[robot_id as usize]
    }
}

/// Law: delivering the same frame twice leaves the store exactly as one
/// delivery does — entries are overwritten in place, never queued, so a
/// replayed datagram between two slots causes exactly one transmission.
pub proof fn lemma_replay_overwrites(slots: Seq<Option<ControlFrame>>, f: ControlFrame)
    requires
        0 <= f.robot_id < slots.len(),
    ensures
        slots.update(f.robot_id as int, Some(f)).update(f.robot_id as int, Some(f)) == slots.update(
            f.robot_id as int,
            Some(f),
        ),
{
    assert(slots.update(f.robot_id as int, Some(f)).update(f.robot_id as int, Some(f))
        =~= slots.update(f.robot_id as int, Some(f)));
}

} // verus!
