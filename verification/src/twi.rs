//! Packets of the two-wire (I²C-style) interface.

use vstd::prelude::*;

verus! {

/// One message on the two-wire bus, as the simulator frames it: a
/// condition bitmask, the addressed slave, and one byte of payload.
///
/// On the wire a packet travels inside a `u32`, its three fields in the
/// second, third and fourth little-endian byte.
#[derive(Clone, Copy, Debug, PartialEq, Eq, Structural)]
pub struct TwiPacket {
    pub msg: u8,
    pub addr: u8,
    pub data: u8,
}

impl TwiPacket {
    /// Condition bit: a start condition was seen.
    pub const MSG_START: u8 = 1;

    /// Condition bit: a stop condition was seen.
    pub const MSG_STOP: u8 = 2;

    /// Condition bit: the packet addresses a slave.
    pub const MSG_ADDR: u8 = 4;

    /// Condition bit: the packet acknowledges a transfer.
    pub const MSG_ACK: u8 = 8;

    /// Condition bit: the master writes a byte.
    pub const MSG_WRITE: u8 = 16;

    /// Condition bit: the master asks to read a byte.
    pub const MSG_READ: u8 = 32;

    /// Unpacks a packet from its wire representation.
    pub fn decode(packet: u32) -> (r: Self)
        ensures
            r.msg == (packet >> 8u32) as u8,
            r.addr == (packet >> 16u32) as u8,
            r.data == (packet >> 24u32) as u8,
    {
        Self {
            msg: (packet >> 8u32) as u8,
            addr: (packet >> 16u32) as u8,
            data: (packet >> 24u32) as u8,
        }
    }

    /// Packs this packet into its wire representation.
    pub fn encode(self) -> (r: u32)
        ensures
            r == ((self.msg as u32) << 8u32) | ((self.addr as u32) << 16u32) | ((
            self.data as u32) << 24u32),
    {
        ((self.msg as u32) << 8u32) | ((self.addr as u32) << 16u32) | ((self.data as u32) << 24u32)
    }

    /// Whether the packet reports a start condition.
    pub fn is_start(&self) -> (r: bool)
        ensures
            r == (self.msg & TwiPacket::MSG_START > 0),
    {
        self.msg & Self::MSG_START > 0
    }

    /// Whether the packet reports a stop condition.
    pub fn is_stop(&self) -> (r: bool)
        ensures
            r == (self.msg & TwiPacket::MSG_STOP > 0),
    {
        self.msg & Self::MSG_STOP > 0
    }

    /// Whether the packet addresses a slave.
    pub fn is_addr(&self) -> (r: bool)
        ensures
            r == (self.msg & TwiPacket::MSG_ADDR > 0),
    {
        self.msg & Self::MSG_ADDR > 0
    }

    /// Whether the packet acknowledges a transfer.
    pub fn is_ack(&self) -> (r: bool)
        ensures
            r == (self.msg & TwiPacket::MSG_ACK > 0),
    {
        self.msg & Self::MSG_ACK > 0
    }

    /// Whether the master writes a byte.
    pub fn is_write(&self) -> (r: bool)
        ensures
            r == (self.msg & TwiPacket::MSG_WRITE > 0),
    {
        self.msg & Self::MSG_WRITE > 0
    }

    /// Whether the master asks to read a byte.
    pub fn is_read(&self) -> (r: bool)
        ensures
            r == (self.msg & TwiPacket::MSG_READ > 0),
    {
        self.msg & Self::MSG_READ > 0
    }

    /// The acknowledgement a slave sends back for this packet.
    pub fn respond_ack(&self) -> (r: Self)
        ensures
            r.msg == TwiPacket::MSG_ACK,
            r.addr == self.addr,
            r.data == 1u8,
    {
        Self { msg: Self::MSG_ACK, addr: self.addr, data: 1 }
    }

    /// The data byte a slave sends back for this packet.
    pub fn respond_data(&self, data: u8) -> (r: Self)
        ensures
            r.msg == TwiPacket::MSG_READ,
            r.addr == self.addr,
            r.data == data,
    {
        Self { msg: Self::MSG_READ, addr: self.addr, data }
    }
}

/// A device that answers two-wire packets addressed to it, implemented
/// by test code that models an attached slave.
pub trait TwiSlave {
    /// Handles one packet; the returned packet, if any, is raised back
    /// on the bus.
    fn recv(&mut self, packet: TwiPacket) -> Option<TwiPacket>;
}

} // verus!
