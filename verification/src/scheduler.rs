//! The radio round scheduler: the core of the station.
//!
//! The scheduler multiplexes the single half-duplex radio over the fleet.  A
//! round visits every robot once, one slot per robot; in each slot a command
//! is selected by priority — manual first, then network, then a synthesized
//! keep-alive for a robot currently marked dead — and stamped with the team
//! configured at startup.  The caller owns the radio and the clock: it
//! transmits the selected frame, polls for replies within the reply window,
//! and feeds every received status frame back through `process_replies`.

use vstd::prelude::*;

use crate::command_store::CommandStore;
use crate::messages::{ControlFrame, StatusFrame, Team};

verus! {

/// Whether bit `r` of an aliveness mask is set, meaning robot `r` is
/// currently considered alive.
pub open spec fn alive_bit(mask: u16, r: u16) -> bool {
    (mask >> r) & 1 == 1
}

/// The per-slot arbitration and round bookkeeping over one radio.
pub struct RadioScheduler {
    /// The team configured at startup; every outbound frame carries it
    pub team: Team,
    /// The number of robots in play, at most sixteen
    pub num_robots: u8,
    /// The robot polled in the current slot
    pub cursor: u8,
    /// The freshest network command per robot
    pub net: CommandStore,
    /// The freshest manual (gamepad) command per robot
    pub manual: CommandStore,
    /// The latest aliveness mask published by the liveness aggregator
    pub alive_mask: u16,
}

impl RadioScheduler {
    /// The fleet fits the mask and the cursor points at a slot.
    pub open spec fn wf(self) -> bool {
        &&& self.num_robots <= 16
        &&& self.net.wf()
        &&& self.manual.wf()
        &&& if self.num_robots == 0 {
            self.cursor == 0
        } else {
            self.cursor < self.num_robots
        }
    }

    /// The command selected for robot `r`: the manual command if one
    /// exists, else the network command if one exists, else a keep-alive if
    /// `r` is marked dead, else nothing.  Whatever is selected is stamped
    /// with the configured team.
    pub open spec fn spec_selected(self, r: int) -> Option<ControlFrame>
        recommends
            0 <= r < self.num_robots,
    {
        if self.manual@[r] is Some {
            Some(self.manual@[r]->Some_0.spec_with_team(self.team))
        } else if self.net@[r] is Some {
            Some(self.net@[r]->Some_0.spec_with_team(self.team))
        } else if !alive_bit(self.alive_mask, r as u16) {
            Some(ControlFrame::spec_keep_alive(self.team, r as u8))
        } else {
            None
        }
    }

    /// A fresh scheduler: cursor at robot 0, no commands yet, and every
    /// robot optimistically presumed alive until the aggregator says
    /// otherwise.
    pub fn new(team: Team, num_robots: u8) -> (r: RadioScheduler)
        requires
            num_robots <= 16,
        ensures
            r.wf(),
            r.team == team,
            r.num_robots == num_robots,
            r.cursor == 0,
            r.alive_mask == 0xFFFFu16,
            forall|i: int| 0 <= i < 16 ==> r.net@[i] is None,
            forall|i: int| 0 <= i < 16 ==> r.manual@[i] is None,
    {
        RadioScheduler {
            team,
            num_robots,
            cursor: 0,
            net: CommandStore::new(),
            manual: CommandStore::new(),
            alive_mask: 0xFFFF,
        }
    }

    /// Record a control frame that arrived from the field computer.  A
    /// frame for a robot outside the fleet is ignored; otherwise it
    /// overwrites the previous network command for that robot.
    pub fn submit_network(&mut self, frame: ControlFrame)
        requires
            old(self).wf(),
            frame.wf(),
        ensures
            final(self).wf(),
            final(self).team == old(self).team,
            final(self).num_robots == old(self).num_robots,
            final(self).cursor == old(self).cursor,
            final(self).manual == old(self).manual,
            final(self).alive_mask == old(self).alive_mask,
            frame.robot_id < old(self).num_robots ==> final(self).net@ == old(self).net@.update(
                frame.robot_id as int,
                Some(frame),
            ),
            frame.robot_id >= old(self).num_robots ==> final(self).net == old(self).net,
    {
        if frame.robot_id < self.num_robots {
            self.net.insert(frame);
        }
    }

    /// Record a control frame produced by the gamepad source.  A frame for
    /// a robot outside the fleet is ignored; otherwise it overwrites the
    /// previous manual command for that robot.
    pub fn submit_manual(&mut self, frame: ControlFrame)
        requires
            old(self).wf(),
            frame.wf(),
        ensures
            final(self).wf(),
            final(self).team == old(self).team,
            final(self).num_robots == old(self).num_robots,
            final(self).cursor == old(self).cursor,
            final(self).net == old(self).net,
            final(self).alive_mask == old(self).alive_mask,
            frame.robot_id < old(self).num_robots ==> final(self).manual@ == old(
                self,
            ).manual@.update(frame.robot_id as int, Some(frame)),
            frame.robot_id >= old(self).num_robots ==> final(self).manual == old(self).manual,
    {
        if frame.robot_id < self.num_robots {
            self.manual.insert(frame);
        }
    }

    /// Latch the aliveness mask most recently published by the liveness
    /// aggregator.
    pub fn set_alive_mask(&mut self, mask: u16)
        requires
            old(self).wf(),
        ensures
            final(self).wf(),
            final(self).team == old(self).team,
            final(self).num_robots == old(self).num_robots,
            final(self).cursor == old(self).cursor,
            final(self).net == old(self).net,
            final(self).manual == old(self).manual,
            final(self).alive_mask == mask,
    {
        self.alive_mask = mask;
    }

    /// The command selected for robot `robot_id`, stamped with the
    /// configured team.
    pub fn select_for(&self, robot_id: u8) -> (r: Option<ControlFrame>)
        requires
            self.wf(),
            robot_id < self.num_robots,
        ensures
            r == self.spec_selected(robot_id as int),
            r is Some ==> r->Some_0.wf(),
            r is Some ==> r->Some_0.team == self.team,
            r is Some ==> r->Some_0.robot_id == robot_id,
    {
        match self.manual.get(robot_id) {
            Some(f) => Some(f.with_team(self.team)),
            None => match self.net.get(robot_id) {
                Some(f) => Some(f.with_team(self.team)),
                None => {
                    let bit = (self.alive_mask >> (robot_id as u16)) & 1;
                    proof {
                        let m = self.alive_mask;
                        let rid = robot_id as u16;
                        assert(((m >> rid) & 1) == 0 || ((m >> rid) & 1) == 1) by (bit_vector);
                    }
                    if bit == 0 {
                        Some(ControlFrame::keep_alive(self.team, robot_id))
                    } else {
                        None
                    }
                },
            },
        }
    }

    /// The command selected for the current slot's robot.
    pub fn select_command(&self) -> (r: Option<ControlFrame>)
        requires
            self.wf(),
            self.num_robots > 0,
        ensures
            r == self.spec_selected(self.cursor as int),
            r is Some ==> r->Some_0.wf(),
            r is Some ==> r->Some_0.team == self.team,
            r is Some ==> r->Some_0.robot_id == self.cursor,
    {
        self.select_for(self.cursor)
    }

    /// Move the cursor to the next slot, wrapping at the end of the fleet.
    /// Returns whether the move completed a round.
    pub fn advance(&mut self) -> (wrapped: bool)
        requires
            old(self).wf(),
            old(self).num_robots > 0,
        ensures
            final(self).wf(),
            final(self).team == old(self).team,
            final(self).num_robots == old(self).num_robots,
            final(self).net == old(self).net,
            final(self).manual == old(self).manual,
            final(self).alive_mask == old(self).alive_mask,
            final(self).cursor as int == (old(self).cursor + 1) % (old(self).num_robots as int),
            wrapped == (old(self).cursor + 1 == old(self).num_robots),
    {
        if self.cursor + 1 == self.num_robots {
            self.cursor = 0;
            proof {
                let n = self.num_robots as int;
                assert(n % n == 0) by (nonlinear_arith)
                    requires
                        n > 0,
                ;
            }
            true
        } else {
            self.cursor = self.cursor + 1;
            proof {
                let c = self.cursor as int;
                let n = self.num_robots as int;
                assert(c % n == c) by (nonlinear_arith)
                    requires
                        0 <= c < n,
                ;
            }
            false
        }
    }

    /// The commands one whole round would transmit, slot by slot: entry `r`
    /// is the frame for robot `r`, or nothing where the slot is skipped.
    /// With no robots in play the round is empty and the radio is never
    /// touched.
    pub fn round_actions(&self) -> (r: Vec<Option<ControlFrame>>)
        requires
            self.wf(),
        ensures
            r@.len() == self.num_robots,
            forall|i: int| 0 <= i < self.num_robots ==> r@[i] == self.spec_selected(i),
    {
        let mut actions: Vec<Option<ControlFrame>> = Vec::new();
        let mut i: u8 = 0;
        while i < self.num_robots
            invariant
                self.wf(),
                i <= self.num_robots,
                actions@.len() == i,
                forall|j: int| 0 <= j < i ==> actions@[j] == self.spec_selected(j),
            decreases self.num_robots - i,
        {
            actions.push(self.select_for(i));
            i = i + 1;
        }
        actions
    }
}

/// The decisions taken during one reply window.
pub struct ReplyOutcome {
    /// The robot ids to credit as heard from, one per received frame and in
    /// arrival order — a late reply is credited to its sender, never to the
    /// robot of the current slot
    pub heard: Vec<u8>,
    /// Whether the polled robot itself answered, ending the wait early
    pub matched: bool,
}

/// Decide about a single status frame received while polling robot
/// `slot_robot`: the frame is always forwarded and credited to its sender;
/// the wait ends early only when the sender is the polled robot.
pub fn process_reply(slot_robot: u8, frame: &StatusFrame) -> (matched: bool)
    ensures
        matched == (frame.robot_id == slot_robot),
{
    frame.robot_id == slot_robot
}

/// The decisions for a whole reply window in which `arrivals` were
/// received, in order: every frame is forwarded and credited to its own
/// sender, and the window counts as answered exactly when some frame came
/// from the polled robot.  With no arrivals — for instance with a zero
/// reply budget — nothing is forwarded and the slot is "no reply".
pub fn process_replies(slot_robot: u8, arrivals: &Vec<StatusFrame>) -> (r: ReplyOutcome)
    ensures
        r.heard@.len() == arrivals@.len(),
        forall|i: int| 0 <= i < arrivals@.len() ==> r.heard@[i] == arrivals@[i].robot_id,
        r.matched <==> exists|i: int|
            0 <= i < arrivals@.len() && arrivals@[i].robot_id == slot_robot,
{
    let mut heard: Vec<u8> = Vec::new();
    let mut matched = false;
    let mut i: usize = 0;
    while i < arrivals.len()
        invariant
            i <= arrivals@.len(),
            heard@.len() == i,
            forall|j: int| 0 <= j < i ==> heard@[j] == arrivals@[j].robot_id,
            matched <==> exists|j: int| 0 <= j < i && arrivals@[j].robot_id == slot_robot,
        decreases arrivals@.len() - i,
    {
        let frame = &arrivals[i];
        heard.push(frame.robot_id);
        if process_reply(slot_robot, frame) {
            matched = true;
        }
        i = i + 1;
    }
    ReplyOutcome { heard, matched }
}

/// Law: a slot only ever addresses its own robot — the frame selected for
/// slot `i` targets robot `i`, so distinct slots of one round target
/// distinct robots and at most one frame per robot is transmitted per
/// round.
pub proof fn lemma_one_transmission_per_round(s: RadioScheduler, i: int, j: int)
    requires
        s.wf(),
        0 <= i < s.num_robots,
        0 <= j < s.num_robots,
        s.spec_selected(i) is Some,
    ensures
        s.spec_selected(i)->Some_0.robot_id == i,
        i != j ==> s.spec_selected(i)->Some_0.robot_id != j,
{
}

/// Law: every selected frame carries the team configured at startup; no
/// command source can override it.
pub proof fn lemma_configured_team(s: RadioScheduler, i: int)
    requires
        s.wf(),
        0 <= i < s.num_robots,
        s.spec_selected(i) is Some,
    ensures
        s.spec_selected(i)->Some_0.team == s.team,
{
}

/// Law: the freshest network command for a robot is the one transmitted at
/// that robot's next slot, stamped with the configured team, as long as no
/// manual command exists for it and no later network command replaced it.
pub proof fn lemma_network_command_transmitted(s: RadioScheduler, f: ControlFrame)
    requires
        s.wf(),
        0 <= f.robot_id < s.num_robots,
        s.net@[f.robot_id as int] == Some(f),
        s.manual@[f.robot_id as int] is None,
    ensures
        s.spec_selected(f.robot_id as int) == Some(f.spec_with_team(s.team)),
{
}

/// Law: when a manual command exists for a robot, it is the one selected —
/// stamped with the configured team — and no network command for that robot
/// is transmitted in its slot.
pub proof fn lemma_manual_overrides_network(s: RadioScheduler, r: int)
    requires
        s.wf(),
        0 <= r < s.num_robots,
        s.manual@[r] is Some,
    ensures
        s.spec_selected(r) == Some(s.manual@[r]->Some_0.spec_with_team(s.team)),
{
}

/// Law: a robot marked dead with no fresh command from either source is
/// sent a keep-alive frame in its slot, every round.
pub proof fn lemma_keep_alive_when_dead(s: RadioScheduler, r: int)
    requires
        s.wf(),
        0 <= r < s.num_robots,
        s.manual@[r] is None,
        s.net@[r] is None,
        !alive_bit(s.alive_mask, r as u16),
    ensures
        s.spec_selected(r) == Some(ControlFrame::spec_keep_alive(s.team, r as u8)),
{
}

} // verus!
