//! Overlay onto the host's player-actor record.
//!
//! The record's byte layout is owned by the host and known only by reverse
//! engineering; the offsets below document the modelled byte ranges. Padding
//! between them stands for unmodelled host fields and is never read or
//! written. The position is held as the raw bit patterns of the host's three
//! 32-bit floating-point words, so the verified core never computes on a
//! float; the boundary glue reinterprets the bits.

use vstd::prelude::*;

verus! {

/// Byte offset of the actor's orientation triple inside the host record.
pub const ANGLE_OFFSET: usize = 0xB8;
/// Byte offset of the actor's position triple inside the host record.
pub const POS_OFFSET: usize = 0xC0;
/// Byte offset of the actor's stamina counter inside the host record.
pub const STAMINA_OFFSET: usize = 0x4498;

/// An orientation triple of 16-bit host angle units.
#[derive(Clone, Copy, PartialEq, Eq, Structural, Debug)]
pub struct Vec3s {
    pub x: i16,
    pub y: i16,
    pub z: i16,
}

/// A position triple carried as the host's raw 32-bit float bit patterns.
#[derive(Clone, Copy, PartialEq, Eq, Structural, Debug)]
pub struct Vec3Bits {
    pub x: u32,
    pub y: u32,
    pub z: u32,
}

/// The modelled fields of the host's player-actor record, in plain values.
#[derive(Clone, Copy, PartialEq, Eq, Structural, Debug)]
pub struct ActorLink {
    pub angle: Vec3s,
    pub pos: Vec3Bits,
    pub stamina_amount: u32,
}

/// A typed view onto the host's player actor, or onto nothing when the host's
/// actor pointer is unset. An unset base is never dereferenced: reads return
/// the absent result and writes are no-ops.
pub struct ActorOverlay {
    base: Option<ActorLink>,
}

impl ActorOverlay {
    /// True when the host-supplied actor pointer is set.
    pub closed spec fn is_set(&self) -> bool {
        self.base is Some
    }

    /// The record behind the pointer, meaningful only when `is_set()`.
    pub closed spec fn link(&self) -> ActorLink {
        self.base.unwrap()
    }

    /// An overlay whose actor pointer the host has not supplied.
    pub fn unset() -> (r: ActorOverlay)
        ensures
            !r.is_set(),
    {
        ActorOverlay { base: None }
    }

    /// An overlay onto the given record.
    pub fn from_link(link: ActorLink) -> (r: ActorOverlay)
        ensures
            r.is_set(),
            r.link() == link,
    {
        ActorOverlay { base: Some(link) }
    }

    /// Reads the whole modelled record; absent when the pointer is unset.
    pub fn read(&self) -> (r: Option<ActorLink>)
        ensures
            !self.is_set() ==> r is None,
            self.is_set() ==> r == Some(self.link()),
    {
        self.base
    }

    /// Reads the stamina counter; absent when the pointer is unset.
    pub fn read_stamina(&self) -> (r: Option<u32>)
        ensures
            !self.is_set() ==> r is None,
            self.is_set() ==> r == Some(self.link().stamina_amount),
    {
        match &self.base {
            Some(l) => Some(l.stamina_amount),
            None => None,
        }
    }

    /// Writes the stamina counter in place; a no-op when the pointer is
    /// unset.
    pub fn write_stamina(&mut self, v: u32)
        ensures
            !old(self).is_set() ==> *final(self) == *old(self),
            old(self).is_set() ==> final(self).is_set()
                && final(self).link() == (ActorLink { stamina_amount: v, ..old(self).link() }),
    {
        match &mut self.base {
            Some(l) => {
                l.stamina_amount = v;
            },
            None => {},
        }
    }

    /// Reads the position bits; absent when the pointer is unset.
    pub fn read_pos(&self) -> (r: Option<Vec3Bits>)
        ensures
            !self.is_set() ==> r is None,
            self.is_set() ==> r == Some(self.link().pos),
    {
        match &self.base {
            Some(l) => Some(l.pos),
            None => None,
        }
    }

    /// Writes the position bits in place; a no-op when the pointer is unset.
    pub fn write_pos(&mut self, p: Vec3Bits)
        ensures
            !old(self).is_set() ==> *final(self) == *old(self),
            old(self).is_set() ==> final(self).is_set()
                && final(self).link() == (ActorLink { pos: p, ..old(self).link() }),
    {
        match &mut self.base {
            Some(l) => {
                l.pos = p;
            },
            None => {},
        }
    }

    /// Reads the orientation triple; absent when the pointer is unset.
    pub fn read_angle(&self) -> (r: Option<Vec3s>)
        ensures
            !self.is_set() ==> r is None,
            self.is_set() ==> r == Some(self.link().angle),
    {
        match &self.base {
            Some(l) => Some(l.angle),
            None => None,
        }
    }

    /// Writes the orientation triple in place; a no-op when the pointer is
    /// unset.
    pub fn write_angle(&mut self, a: Vec3s)
        ensures
            !old(self).is_set() ==> *final(self) == *old(self),
            old(self).is_set() ==> final(self).is_set()
                && final(self).link() == (ActorLink { angle: a, ..old(self).link() }),
    {
        match &mut self.base {
            Some(l) => {
                l.angle = a;
            },
            None => {},
        }
    }
}

} // verus!
