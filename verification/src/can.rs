//! Frames, bus statistics and the loopback transport.

use crate::clock::now_millis;
use vstd::prelude::*;

verus! {

/// Fixed-size addressed message unit exchanged over the bus.
///
/// A frame has no meaning of its own: devices assign one to the payload.
#[derive(Debug, Clone, Copy, PartialEq, Eq)]
pub struct CanFrame {
    pub id: u32,
    pub data: [u8; 8],
}

impl CanFrame {
    /// First payload byte, the one the reference payload convention reads.
    pub open spec fn head(self) -> u8 {
        self.data[0]
    }

    /// The frame with its first payload byte replaced by `byte`.
    pub open spec fn with_head(self, byte: u8) -> CanFrame {
        CanFrame { id: self.id, data: vstd::array::spec_array_update(self.data, 0, byte) }
    }
}

/// Sum of two bytes modulo 256.
pub open spec fn wrap_sum(a: u8, b: u8) -> u8 {
    ((a + b) % 256) as u8
}

/// Counters of the frames that went through the transport.
#[derive(Debug, Clone, Copy, PartialEq, Eq)]
pub struct CanStats {
    pub rx: u32,
    pub tx: u32,
}

impl Default for CanStats {
    fn default() -> (stats: CanStats)
        ensures
            stats == (CanStats { rx: 0, tx: 0 }),
    {
        CanStats { rx: 0, tx: 0 }
    }
}

/// Name of the interface the transport is bound to.
pub struct CanConfig {
    pub iface: String,
}

impl Default for CanConfig {
    fn default() -> (config: CanConfig)
        ensures
            config.iface@ == "vcan0"@,
    {
        CanConfig { iface: "vcan0".to_owned() }
    }
}

/// How long a frame stays in the loopback before it can come back, in
/// milliseconds.
pub const LOOPBACK_DELAY_MS: i64 = 750;

/// A frame held by the loopback, with the time it was sent at.
#[derive(Debug, Clone, Copy)]
pub struct SentFrame {
    pub frame: CanFrame,
    pub sent_at: i64,
}

/// What a [`CanInterface`] is, as a mathematical value.
pub struct BusState {
    /// Frames sent and not yet handed back, oldest first.
    pub in_flight: Seq<SentFrame>,
    /// Sum modulo 256 of the first payload byte of every frame sent so far.
    pub carry: u8,
    pub stats: CanStats,
}

impl BusState {
    /// A transport on which nothing has happened yet.
    pub open spec fn idle() -> BusState {
        BusState { in_flight: Seq::empty(), carry: 0, stats: CanStats { rx: 0, tx: 0 } }
    }

    /// One more frame can be counted as sent.
    pub open spec fn can_send(self) -> bool {
        self.stats.tx < u32::MAX
    }

    /// The transport after `frame` was sent at time `now`.
    pub open spec fn send(self, frame: CanFrame, now: i64) -> BusState {
        BusState {
            in_flight: self.in_flight.push(SentFrame { frame, sent_at: now }),
            carry: wrap_sum(self.carry, frame.head()),
            stats: CanStats { rx: self.stats.rx, tx: (self.stats.tx + 1) as u32 },
        }
    }

    /// A frame comes back at time `now`: the loopback is asked for, it holds
    /// a frame, and the oldest one was sent more than
    /// [`LOOPBACK_DELAY_MS`] ago.
    pub open spec fn deliverable(self, loopback: bool, now: i64) -> bool {
        &&& loopback
        &&& self.in_flight.len() > 0
        &&& self.in_flight[0].sent_at + LOOPBACK_DELAY_MS < now
    }

    /// The frame that comes back: the newest one held, its first payload
    /// byte shifted by the carry.
    pub open spec fn echo(self) -> CanFrame {
        let newest = self.in_flight.last().frame;
        newest.with_head(wrap_sum(newest.head(), self.carry))
    }

    /// Receiving at time `now` does not overflow the counter.
    pub open spec fn can_recv(self, loopback: bool, now: i64) -> bool {
        self.deliverable(loopback, now) ==> self.stats.rx < u32::MAX
    }

    /// Receiving does not overflow the counter, whatever the time.
    pub open spec fn can_recv_anytime(self, loopback: bool) -> bool {
        forall|now: i64| self.can_recv(loopback, now)
    }

    /// The transport after a receive at time `now`, and what the receive
    /// hands out.
    pub open spec fn recv(self, loopback: bool, now: i64) -> (BusState, Option<CanFrame>) {
        if self.deliverable(loopback, now) {
            (
                BusState {
                    in_flight: self.in_flight.drop_last(),
                    carry: self.carry,
                    stats: CanStats { rx: (self.stats.rx + 1) as u32, tx: self.stats.tx },
                },
                Some(self.echo()),
            )
        } else {
            (self, None)
        }
    }
}

/// Loopback transport: every frame sent comes back once, after a delay.
#[derive(Debug)]
pub struct CanInterface {
    carry: u8,
    buf: Vec<SentFrame>,
    stats: CanStats,
}

impl View for CanInterface {
    type V = BusState;

    closed spec fn view(&self) -> BusState {
        BusState { in_flight: self.buf@, carry: self.carry, stats: self.stats }
    }
}

impl CanInterface {
    /// Opens the transport. The loopback needs nothing from `_config`.
    pub fn new(_config: CanConfig) -> (iface: CanInterface)
        ensures
            iface@ == BusState::idle(),
    {
        CanInterface { carry: 0, buf: Vec::new(), stats: CanStats::default() }
    }

    /// Snapshot of the counters.
    pub fn stats(&self) -> (stats: CanStats)
        ensures
            stats == self@.stats,
    {
        self.stats
    }

    /// Whether one more frame can be sent without overflowing the counter.
    pub fn can_send(&self) -> (ok: bool)
        ensures
            ok == self@.can_send(),
    {
        self.stats.tx < u32::MAX
    }

    /// Whether a receive at time `now` stays within the counter.
    pub fn can_recv_at(&self, loopback: bool, now: i64) -> (ok: bool)
        ensures
            ok == self@.can_recv(loopback, now),
    {
        !self.is_deliverable(loopback, now) || self.stats.rx < u32::MAX
    }

    /// Whether a receive stays within the counter whatever the time.
    pub fn can_recv(&self, loopback: bool) -> (ok: bool)
        ensures
            ok == self@.can_recv_anytime(loopback),
    {
        let ok = !self.is_deliverable(loopback, i64::MAX) || self.stats.rx < u32::MAX;
        proof {
            if !ok {
                assert(!self@.can_recv(loopback, i64::MAX));
            }
        }
        ok
    }

    fn is_deliverable(&self, loopback: bool, now: i64) -> (yes: bool)
        ensures
            yes == self@.deliverable(loopback, now),
    {
        if !loopback || self.buf.len() == 0 {
            return false;
        }
        match self.buf[0].sent_at.checked_add(LOOPBACK_DELAY_MS) {
            Some(due) => due < now,
            None => false,
        }
    }

    /// Sends `frame` at time `now`.
    pub fn send_at(&mut self, frame: CanFrame, now: i64)
        requires
            old(self)@.can_send(),
        ensures
            final(self)@ == old(self)@.send(frame, now),
    {
        self.stats.tx += 1;
        self.carry = self.carry.wrapping_add(frame.data[0]);
        self.buf.push(SentFrame { frame, sent_at: now });
    }

    /// Sends `frame` at the time the clock shows.
    pub fn send(&mut self, frame: CanFrame)
        requires
            old(self)@.can_send(),
        ensures
            exists|now: i64| final(self)@ == old(self)@.send(frame, now),
    {
        let now: i64 = now_millis();
        self.send_at(frame, now);
    }

    /// Takes the frame that comes back at time `now`, if one does.
    pub fn recv_at(&mut self, loopback: bool, now: i64) -> (frame: Option<CanFrame>)
        requires
            old(self)@.can_recv(loopback, now),
        ensures
            (final(self)@, frame) == old(self)@.recv(loopback, now),
    {
        if !self.is_deliverable(loopback, now) {
            return None;
        }
        let newest = self.buf.pop().unwrap();
        let mut frame = newest.frame;
        frame.data[0] = frame.data[0].wrapping_add(self.carry);
        self.stats.rx += 1;
        proof {
            assert(frame.data =~= old(self)@.echo().data);
            assert(self@.in_flight =~= old(self)@.in_flight.drop_last());
        }
        Some(frame)
    }

    /// Takes the frame that comes back at the time the clock shows, if one
    /// does.
    pub fn recv(&mut self, loopback: bool) -> (frame: Option<CanFrame>)
        requires
            old(self)@.can_recv_anytime(loopback),
        ensures
            exists|now: i64| (final(self)@, frame) == old(self)@.recv(loopback, now),
    {
        let now: i64 = now_millis();
        self.recv_at(loopback, now)
    }
}

} // verus!
