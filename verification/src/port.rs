//! Typed CPU I/O ports.
//!
//! A [`Port`] is a width-typed handle to a port number; the privileged `in`
//! and `out` instructions themselves live behind the [`PortIo`] capability,
//! so a kernel backend issues real instructions while any other backend (a
//! scripted one, say) can stand in without touching call sites. The width is
//! fixed by the handle's type parameter, never by a runtime tag, so the
//! wrong-width instruction on a port is unrepresentable.

use core::marker::PhantomData;
use vstd::prelude::*;

verus! {

/// The capability to issue one port instruction per width.
///
/// Nothing is promised of what a read returns or of what a write causes:
/// ports are hardware registers, and their behaviour is the device's. A
/// backend may keep state of its own (`&mut self`), as a scripted test
/// backend does.
pub trait PortIo {
    /// Issues the 8-bit input instruction on `port`.
    fn read_u8(&mut self, port: u16) -> u8;

    /// Issues the 8-bit output instruction on `port`.
    fn write_u8(&mut self, port: u16, value: u8);

    /// Issues the 16-bit input instruction on `port`.
    fn read_u16(&mut self, port: u16) -> u16;

    /// Issues the 16-bit output instruction on `port`.
    fn write_u16(&mut self, port: u16, value: u16);

    /// Issues the 32-bit input instruction on `port`.
    fn read_u32(&mut self, port: u16) -> u32;

    /// Issues the 32-bit output instruction on `port`.
    fn write_u32(&mut self, port: u16, value: u32);

    /// Issues the 64-bit input instruction on `port` (meaningful only on
    /// 64-bit targets).
    fn read_u64(&mut self, port: u16) -> u64;

    /// Issues the 64-bit output instruction on `port` (meaningful only on
    /// 64-bit targets).
    fn write_u64(&mut self, port: u16, value: u64);
}

/// A CPU I/O port of access width `T`, one of `u8`, `u16`, `u32`, `u64`.
///
/// Stateless beyond its number: two handles naming the same number alias the
/// same hardware register, and no exclusivity is tracked here - that
/// discipline is the caller's.
pub struct Port<T> {
    number: u16,
    width: PhantomData<T>,
}

impl<T> View for Port<T> {
    type V = u16;

    closed spec fn view(&self) -> u16 {
        self.number
    }
}

impl<T> Port<T> {
    /// Records a port number; side-effect free, no instruction is issued.
    pub fn new(number: u16) -> (r: Self)
        ensures
            r@ == number,
    {
        Port { number, width: PhantomData }
    }

    /// The recorded port number.
    pub fn number(&self) -> (r: u16)
        ensures
            r == self@,
    {
        self.number
    }
}

impl Port<u8> {
    /// One 8-bit read from this port.
    pub fn read<B: PortIo>(&self, io: &mut B) -> u8 {
        io.read_u8(self.number)
    }

    /// One 8-bit write to this port.
    pub fn write<B: PortIo>(&self, io: &mut B, data: u8) {
        io.write_u8(self.number, data)
    }
}

impl Port<u16> {
    /// One 16-bit read from this port.
    pub fn read<B: PortIo>(&self, io: &mut B) -> u16 {
        io.read_u16(self.number)
    }

    /// One 16-bit write to this port.
    pub fn write<B: PortIo>(&self, io: &mut B, data: u16) {
        io.write_u16(self.number, data)
    }
}

impl Port<u32> {
    /// One 32-bit read from this port.
    pub fn read<B: PortIo>(&self, io: &mut B) -> u32 {
        io.read_u32(self.number)
    }

    /// One 32-bit write to this port.
    pub fn write<B: PortIo>(&self, io: &mut B, data: u32) {
        io.write_u32(self.number, data)
    }
}

impl Port<u64> {
    /// One 64-bit read from this port.
    pub fn read<B: PortIo>(&self, io: &mut B) -> u64 {
        io.read_u64(self.number)
    }

    /// One 64-bit write to this port.
    pub fn write<B: PortIo>(&self, io: &mut B, data: u64) {
        io.write_u64(self.number, data)
    }
}

/// A scripted [`PortIo`] backend: reads hand out a fixed queue of bytes in
/// order (and zero once the queue is spent), wider reads return zero, and
/// writes are recorded. It lets the layers above the port seam run without
/// hardware.
pub struct ScriptedPortIo {
    reads: Vec<u8>,
    next: usize,
    writes: Vec<u8>,
}

impl View for ScriptedPortIo {
    type V = Seq<u8>;

    /// The bytes still queued for 8-bit reads, in the order they will come
    /// out.
    closed spec fn view(&self) -> Seq<u8> {
        self.reads@.skip(self.next as int)
    }
}

impl ScriptedPortIo {
    /// A backend that will answer 8-bit reads with `reads`, front to back.
    pub fn new(reads: Vec<u8>) -> (r: Self)
        ensures
            r@ == reads@,
    {
        let r = ScriptedPortIo { reads, next: 0, writes: Vec::new() };
        proof {
            assert(r@ =~= r.reads@);
        }
        r
    }

    /// Every byte written through the backend so far, oldest first, whatever
    /// the width it was written with (wider writes record their low byte).
    pub fn written(&self) -> &Vec<u8> {
        &self.writes
    }
}

impl PortIo for ScriptedPortIo {
    /// Hands out the next queued byte, or zero when the queue is spent.
    fn read_u8(&mut self, _port: u16) -> u8 {
        if self.next < self.reads.len() {
            let b = self.reads[self.next];
            self.next = self.next + 1;
            b
        } else {
            0
        }
    }

    fn write_u8(&mut self, _port: u16, value: u8) {
        self.writes.push(value);
    }

    fn read_u16(&mut self, _port: u16) -> u16 {
        0
    }

    fn write_u16(&mut self, _port: u16, value: u16) {
        self.writes.push((value % 256) as u8);
    }

    fn read_u32(&mut self, _port: u16) -> u32 {
        0
    }

    fn write_u32(&mut self, _port: u16, value: u32) {
        self.writes.push((value % 256) as u8);
    }

    fn read_u64(&mut self, _port: u16) -> u64 {
        0
    }

    fn write_u64(&mut self, _port: u16, value: u64) {
        self.writes.push((value % 256) as u8);
    }
}

} // verus!
