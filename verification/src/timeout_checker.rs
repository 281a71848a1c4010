//! The liveness aggregator.
//!
//! It records the wall time at which each robot was last heard from, and on
//! every tick recomputes which robots are alive — heard from within the
//! configured timeout — and packs the result into a 16-bit mask, bit `r`
//! for robot `r`.  The mask goes to the field computer as a two-byte
//! little-endian datagram and back to the scheduler, whose keep-alives
//! target the robots whose bit is clear.

use vstd::prelude::*;

use crate::codec::CodecError;
use crate::scheduler::alive_bit;

verus! {

/// Whether bit `i` of one datagram byte is set.
pub open spec fn byte_bit(b: u8, i: u8) -> bool {
    (b >> i) & 1 == 1
}

/// Whether a robot last heard from at `last` counts as alive at `now`: it
/// was heard from at all, and no more than `t_dead` ago.  A stamp not yet
/// in the past counts as alive.
pub open spec fn spec_alive(last: Option<u64>, now: u64, t_dead: u64) -> bool {
    match last {
        Some(t) => now - t <= t_dead,
        None => false,
    }
}

/// Setting one bit of a mask leaves every other bit as it was.
proof fn lemma_set_bit(m: u16, r: u16)
    by (bit_vector)
    requires
        r < 16,
    ensures
        forall|j: u16| j < 16 ==> #[trigger] alive_bit(m | (1u16 << r), j) == (j == r || alive_bit(
            m,
            j,
        )),
{
}

/// The empty mask has no bit set.
proof fn lemma_mask_zero()
    by (bit_vector)
    ensures
        forall|j: u16| j < 16 ==> !#[trigger] alive_bit(0u16, j),
{
}

/// The two little-endian bytes of a mask carry its bits: bit `i` of the low
/// byte is mask bit `i`, bit `i` of the high byte is mask bit `i + 8`.
proof fn lemma_mask_bytes(m: u16)
    by (bit_vector)
    ensures
        forall|i: u8| i < 8 ==> #[trigger] byte_bit((m & 0xFF) as u8, i) == alive_bit(m, i as u16),
        forall|i: u8|
            i < 8 ==> #[trigger] byte_bit(((m >> 8) & 0xFF) as u8, i) == alive_bit(
                m,
                (i + 8) as u16,
            ),
{
}

/// The 16-bit mask whose bit `j` is entry `j` of the given booleans; bits
/// beyond the entries are clear.
pub fn mask_of_bools(v: &Vec<bool>) -> (mask: u16)
    requires
        v@.len() <= 16,
    ensures
        forall|j: u16| j < v@.len() ==> alive_bit(mask, j) == v@[j as int],
        forall|j: u16| v@.len() <= j < 16 ==> !alive_bit(mask, j),
{
    let mut mask: u16 = 0;
    let mut r: usize = 0;
    proof {
        lemma_mask_zero();
    }
    while r < v.len()
        invariant
            r <= v@.len(),
            v@.len() <= 16,
            forall|j: u16| j < r ==> alive_bit(mask, j) == v@[j as int],
            forall|j: u16| r <= j < 16 ==> !alive_bit(mask, j),
        decreases v@.len() - r,
    {
        if v[r] {
            proof {
                lemma_set_bit(mask, r as u16);
            }
            mask = mask | (1u16 << (r as u16));
        }
        r = r + 1;
    }
    mask
}

/// The aliveness mask as it crosses the wire: one boolean per addressable
/// robot, packed two bytes little-endian, bit `i` (LSB first) for robot `i`.
pub struct AliveRobotsMessage {
    /// One entry per addressable robot; entry `i` says robot `i` is alive
    pub alive_robots: Vec<bool>,
}

impl AliveRobotsMessage {
    /// One entry for each of the sixteen mask bits.
    pub open spec fn wf(self) -> bool {
        self.alive_robots@.len() == 16
    }

    /// The number of bytes of the packed message.
    pub fn len() -> (r: usize)
        ensures
            r == 2,
    {
        2
    }

    /// The message whose entry `i` is bit `i` of the given mask.
    pub fn from_mask(value: u16) -> (r: AliveRobotsMessage)
        ensures
            r.wf(),
            forall|i: u16| i < 16 ==> r.alive_robots@[i as int] == alive_bit(value, i),
    {
        let mut alive_robots: Vec<bool> = Vec::new();
        let mut i: u16 = 0;
        while i < 16
            invariant
                i <= 16,
                alive_robots@.len() == i,
                forall|j: u16| j < i ==> alive_robots@[j as int] == alive_bit(value, j),
            decreases 16 - i,
        {
            alive_robots.push((value >> i) & 1 == 1);
            i = i + 1;
        }
        AliveRobotsMessage { alive_robots }
    }

    /// The mask whose bit `i` is entry `i` of the message.
    pub fn mask(&self) -> (r: u16)
        requires
            self.wf(),
        ensures
            forall|i: u16| i < 16 ==> alive_bit(r, i) == self.alive_robots@[i as int],
    {
        mask_of_bools(&self.alive_robots)
    }

    /// The two-byte little-endian datagram: bit `i` of the first byte is
    /// entry `i`, bit `i` of the second byte is entry `i + 8`.
    pub fn pack(&self) -> (r: Vec<u8>)
        requires
            self.wf(),
        ensures
            r@.len() == 2,
            forall|i: u8| i < 8 ==> #[trigger] byte_bit(r@[0], i) == self.alive_robots@[i as int],
            forall|i: u8|
                i < 8 ==> #[trigger] byte_bit(r@[1], i) == self.alive_robots@[i as int + 8],
    {
        let m = self.mask();
        proof {
            lemma_mask_bytes(m);
        }
        let lo = (m & 0xFF) as u8;
        let hi = ((m >> 8) & 0xFF) as u8;
        let mut bytes: Vec<u8> = Vec::new();
        bytes.push(lo);
        bytes.push(hi);
        bytes
    }

    /// The message read back from a packed datagram: entry `i` is bit `i`
    /// of the first byte, entry `i + 8` is bit `i` of the second.  Fails
    /// exactly when fewer than two bytes are given.
    pub fn unpack(data: &Vec<u8>) -> (r: Result<AliveRobotsMessage, CodecError>)
        ensures
            r is Ok <==> data@.len() >= 2,
            r is Ok ==> r->Ok_0.wf(),
            r is Ok ==> forall|i: u8|
                i < 8 ==> #[trigger] r->Ok_0.alive_robots@[i as int] == byte_bit(data@[0], i),
            r is Ok ==> forall|i: u8|
                i < 8 ==> #[trigger] r->Ok_0.alive_robots@[i as int + 8] == byte_bit(data@[1], i),
    {
        if data.len() < 2 {
            return Err(CodecError::InvalidBufferSize);
        }
        let mut alive_robots: Vec<bool> = Vec::new();
        let mut b: usize = 0;
        while b < 2
            invariant
                b <= 2,
                data@.len() >= 2,
                alive_robots@.len() == 8 * b,
                forall|k: u8|
                    k < 8 * b ==> #[trigger] alive_robots@[k as int] == byte_bit(
                        data@[k as int / 8],
                        k % 8,
                    ),
            decreases 2 - b,
        {
            let byte = data[b];
            let mut i: u8 = 0;
            while i < 8
                invariant
                    i <= 8,
                    b < 2,
                    data@.len() >= 2,
                    byte == data@[b as int],
                    alive_robots@.len() == 8 * b + i,
                    forall|k: u8|
                        k < 8 * b + i ==> #[trigger] alive_robots@[k as int] == byte_bit(
                            data@[k as int / 8],
                            k % 8,
                        ),
                decreases 8 - i,
            {
                alive_robots.push((byte >> i) & 1 == 1);
                i = i + 1;
            }
            b = b + 1;
        }
        Ok(AliveRobotsMessage { alive_robots })
    }
}

/// The per-robot liveness state and its tick.
pub struct TimeoutChecker {
    /// The number of robots in play, at most sixteen
    pub num_robots: u8,
    /// How long a robot may stay silent before it counts as dead, in
    /// microseconds of wall time
    pub t_dead_us: u64,
    /// The wall time each robot was last heard from, in microseconds;
    /// `None` until it is first heard
    pub last_heard: Vec<Option<u64>>,
    /// Whether each robot counted as alive at the last tick
    pub alive: Vec<bool>,
}

impl TimeoutChecker {
    /// One liveness entry per robot in play.
    pub open spec fn wf(self) -> bool {
        &&& self.num_robots <= 16
        &&& self.last_heard@.len() == self.num_robots
        &&& self.alive@.len() == self.num_robots
    }

    /// A fresh tracker: nobody heard from yet, everybody optimistically
    /// alive until the first tick corrects it.
    pub fn new(num_robots: u8, t_dead_us: u64) -> (r: TimeoutChecker)
        requires
            num_robots <= 16,
        ensures
            r.wf(),
            r.num_robots == num_robots,
            r.t_dead_us == t_dead_us,
            forall|i: int| 0 <= i < num_robots ==> r.last_heard@[i] is None,
            forall|i: int| 0 <= i < num_robots ==> r.alive@[i] == true,
    {
        let mut last_heard: Vec<Option<u64>> = Vec::new();
        let mut alive: Vec<bool> = Vec::new();
        let mut i: u8 = 0;
        while i < num_robots
            invariant
                i <= num_robots,
                last_heard@.len() == i,
                alive@.len() == i,
                forall|j: int| 0 <= j < i ==> last_heard@[j] is None,
                forall|j: int| 0 <= j < i ==> alive@[j] == true,
            decreases num_robots - i,
        {
            last_heard.push(None);
            alive.push(true);
            i = i + 1;
        }
        TimeoutChecker { num_robots, t_dead_us, last_heard, alive }
    }

    /// Record that a status frame from `robot_id` was received at wall time
    /// `now`.  A robot outside the fleet is ignored.
    pub fn record_heard(&mut self, robot_id: u8, now: u64)
        requires
            old(self).wf(),
        ensures
            final(self).wf(),
            final(self).num_robots == old(self).num_robots,
            final(self).t_dead_us == old(self).t_dead_us,
            final(self).alive == old(self).alive,
            robot_id < old(self).num_robots ==> final(self).last_heard@ == old(
                self,
            ).last_heard@.update(robot_id as int, Some(now)),
            robot_id >= old(self).num_robots ==> final(self).last_heard == old(self).last_heard,
    {
        if robot_id < self.num_robots {
            self.last_heard.set(robot_id as usize, Some(now));
        }
    }

    /// One liveness tick at wall time `now`: recompute each robot's
    /// aliveness — heard from within the timeout — and return the packed
    /// mask, bit `r` set exactly when robot `r` is alive.
    pub fn tick(&mut self, now: u64) -> (mask: u16)
        requires
            old(self).wf(),
        ensures
            final(self).wf(),
            final(self).num_robots == old(self).num_robots,
            final(self).t_dead_us == old(self).t_dead_us,
            final(self).last_heard == old(self).last_heard,
            forall|r: int|
                0 <= r < old(self).num_robots ==> final(self).alive@[r] == spec_alive(
                    old(self).last_heard@[r],
                    now,
                    old(self).t_dead_us,
                ),
            forall|r: u16|
                r < old(self).num_robots ==> alive_bit(mask, r) == final(self).alive@[r as int],
            forall|r: u16| old(self).num_robots <= r < 16 ==> !alive_bit(mask, r),
    {
        let mut r: usize = 0;
        let n = self.num_robots as usize;
        while r < n
            invariant
                r <= n,
                n == self.num_robots,
                self.wf(),
                self.num_robots == old(self).num_robots,
                self.t_dead_us == old(self).t_dead_us,
                self.last_heard == old(self).last_heard,
                forall|j: int|
                    0 <= j < r ==> self.alive@[j] == spec_alive(
                        old(self).last_heard@[j],
                        now,
                        old(self).t_dead_us,
                    ),
            decreases n - r,
        {
            let a = match self.last_heard[r] {
                Some(t) => now <= t || now - t <= self.t_dead_us,
                None => false,
            };
            self.alive.set(r, a);
            r = r + 1;
        }
        mask_of_bools(&self.alive)
    }

    /// The mask to publish on shutdown, so the field computer fails closed:
    /// every robot reported dead.
    pub fn shutdown(&self) -> (mask: u16)
        ensures
            mask == 0,
            forall|r: u16| r < 16 ==> !alive_bit(mask, r),
    {
        proof {
            lemma_mask_zero();
        }
        0
    }
}

/// Law: a robot silent for longer than the timeout is reported dead by the
/// very next tick, so an unheard robot's mask bit clears within one timeout
/// plus one tick period.
pub proof fn lemma_silence_goes_dead(last: Option<u64>, now: u64, t_dead: u64)
    requires
        match last {
            Some(t) => now - t > t_dead,
            None => true,
        },
    ensures
        !spec_alive(last, now, t_dead),
{
}

} // verus!
