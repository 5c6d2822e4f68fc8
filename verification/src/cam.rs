//! The CAM backend: the legacy Configuration Access Mechanism. Every scalar
//! access composes a 32-bit address from bus, device, function and offset,
//! selects the register by writing it to the fixed address port, then moves
//! the data at the fixed data port base plus the offset's low two bits.
//!
//! The ports are reached through the kernel's port device, not through raw
//! `in`/`out` instructions, and that is a real deviation from the defined
//! mechanism, stated here rather than hidden: the port device moves one
//! byte per port per transfer, so the address write becomes four one-byte
//! writes to consecutive address-port bytes and a wide data transfer
//! becomes byte transfers, where the mechanism itself defines a single
//! port write of the composed address and one transfer of the requested
//! width. A chipset may latch a byte-assembled address write differently.
//! Verified code cannot hold the native instructions, which are inline
//! assembly; what is verified here is everything around the transfer: the
//! address composition, the port selection, the bracket's ordering and its
//! release on every exit path, and the error discipline. Opening the port
//! device stands in for privilege elevation — it fails exactly where the
//! process may not touch I/O ports — and closing it releases the grant.

use vstd::prelude::*;

use crate::bytes::byte_buffer;
use crate::bytes::combine64;
use crate::bytes::high32;
use crate::bytes::low32;
use crate::bytes::u16_from_le;
use crate::bytes::u16_to_le;
use crate::bytes::u32_from_le;
use crate::bytes::u32_to_le;
use crate::error::Error;
use crate::sys;

verus! {

/// The fixed 32-bit address port of the CAM pair.
pub const ADDRESS_PORT: u16 = 0xcf8;

/// The base of the fixed data port, four bytes above the address port.
pub const DATA_PORT_BASE: u16 = 0xcfc;

/// The CAM address of a register: enable bit 31, bus in bits 16-23, device
/// in bits 11-15, function in bits 8-10, and the offset truncated to its
/// 4-byte boundary in bits 2-7.
pub open spec fn spec_compose_address(bus: u8, device: u8, function: u8, offset: u8) -> u32 {
    0x8000_0000u32 | ((bus as u32) << 16) | (((device & 0x1f) as u32) << 11)
        | (((function & 0x07) as u32) << 8) | ((offset as u32) & 0xfc)
}

/// Composes the 32-bit CAM address written to the address port before every
/// data transfer.
pub fn compose_address(bus: u8, device: u8, function: u8, offset: u8) -> (address: u32)
    ensures
        address == spec_compose_address(bus, device, function, offset),
{
    let mut address: u32 = 0x8000_0000;

    address = address | ((bus as u32) << 16);
    address = address | (((device & 0x1f) as u32) << 11);
    address = address | (((function & 0x07) as u32) << 8);
    address = address | ((offset as u32) & 0xfc);

    address
}

/// The composed address is bit-exact: bit 31 is set, bits 16-23 hold the
/// bus, bits 11-15 the masked device, bits 8-10 the masked function, bits
/// 2-7 the six high bits of the offset, and every other bit is zero.
pub proof fn lemma_address_fields(bus: u8, device: u8, function: u8, offset: u8)
    by (bit_vector)
    ensures
        (spec_compose_address(bus, device, function, offset) >> 31) & 0x01 == 1,
        (spec_compose_address(bus, device, function, offset) >> 16) & 0xff == bus,
        (spec_compose_address(bus, device, function, offset) >> 11) & 0x1f == device & 0x1f,
        (spec_compose_address(bus, device, function, offset) >> 8) & 0x07 == function & 0x07,
        (spec_compose_address(bus, device, function, offset) >> 2) & 0x3f == (offset & 0xfc)
            >> 2,
        (spec_compose_address(bus, device, function, offset) >> 24) & 0x7f == 0,
        spec_compose_address(bus, device, function, offset) & 0x03 == 0,
{
}

/// The data port a transfer at `offset` uses: the base plus the offset's
/// byte position within its 4-byte register.
pub open spec fn spec_data_port(offset: u8) -> int {
    0xcfc + (offset & 0x03)
}

fn data_port(offset: u8) -> (port: u16)
    ensures
        port == spec_data_port(offset),
{
    proof {
        assert((offset & 0x03) < 4) by (bit_vector);
    }
    DATA_PORT_BASE + (offset & 0x03) as u16
}

/// The path of the kernel's port device, through which the port pair is
/// reached.
pub open spec fn spec_port_device_path() -> Seq<u8> {
    seq![0x2f, 0x64, 0x65, 0x76, 0x2f, 0x70, 0x6f, 0x72, 0x74]
}

fn port_device_path() -> (v: Vec<u8>)
    ensures
        v@ == spec_port_device_path(),
{
    let mut v: Vec<u8> = Vec::new();
    v.push(0x2f);
    v.push(0x64);
    v.push(0x65);
    v.push(0x76);
    v.push(0x2f);
    v.push(0x70);
    v.push(0x6f);
    v.push(0x72);
    v.push(0x74);
    proof {
        assert(v@ =~= spec_port_device_path());
    }
    v
}

/// One read bracket: acquire the port device, select the register by
/// writing the composed address at the address port (byte-granular through
/// the port device, not one 32-bit port write), read `n` bytes at the data
/// port, release. A failed acquisition or release is a privilege error; a
/// failed transfer an I/O error. What the bytes hold is the hardware's
/// answer and is promised nothing.
fn cam_read_bytes(bus: u8, device: u8, function: u8, offset: u8, n: usize) -> (r: Result<
    Vec<u8>,
    Error,
>)
    requires
        1 <= n <= 4,
    ensures
        r matches Ok(v) ==> v@.len() == n,
        r matches Err(e) ==> (e is Privilege || e is Io),
{
    let path = port_device_path();
    let fd = match sys::open_read_write(&path) {
        Ok(fd) => fd,
        Err(e) => {
            return Err(Error::Privilege(e));
        },
    };
    let address = compose_address(bus, device, function, offset);
    let abuf = u32_to_le(address);
    let wres = sys::pwrite_fd(fd, &abuf, ADDRESS_PORT as u64);
    let mut data = byte_buffer(n);
    let rres = match wres {
        Ok(_) => sys::pread_fd(fd, &mut data, data_port(offset) as u64),
        Err(e) => Err(e),
    };
    let released = sys::close_fd(fd);
    if let Err(e) = released {
        return Err(Error::Privilege(e));
    }
    match rres {
        Ok(_) => Ok(data),
        Err(e) => Err(Error::Io(e)),
    }
}

/// One write bracket: acquire the port device, select the register by
/// writing the composed address at the address port (byte-granular through
/// the port device, as in the read bracket), write the bytes of `data` at
/// the data port, release.
fn cam_write_bytes(bus: u8, device: u8, function: u8, offset: u8, data: &Vec<u8>) -> (r: Result<
    (),
    Error,
>)
    requires
        1 <= data@.len() <= 4,
    ensures
        r matches Err(e) ==> (e is Privilege || e is Io),
{
    let path = port_device_path();
    let fd = match sys::open_write(&path) {
        Ok(fd) => fd,
        Err(e) => {
            return Err(Error::Privilege(e));
        },
    };
    let address = compose_address(bus, device, function, offset);
    let abuf = u32_to_le(address);
    let wres = match sys::pwrite_fd(fd, &abuf, ADDRESS_PORT as u64) {
        Ok(_) => sys::pwrite_fd(fd, data, data_port(offset) as u64),
        Err(e) => Err(e),
    };
    let released = sys::close_fd(fd);
    if let Err(e) = released {
        return Err(Error::Privilege(e));
    }
    match wres {
        Ok(_) => Ok(()),
        Err(e) => Err(Error::Io(e)),
    }
}

/// Reads the 8-bit register at `offset` of the given function.
pub fn pci_read8(bus: u8, device: u8, function: u8, offset: u8) -> (r: Result<u8, Error>)
    ensures
        r matches Err(e) ==> (e is Privilege || e is Io),
{
    match cam_read_bytes(bus, device, function, offset, 1) {
        Ok(v) => Ok(v[0]),
        Err(e) => Err(e),
    }
}

/// Writes the 8-bit register at `offset` of the given function.
pub fn pci_write8(bus: u8, device: u8, function: u8, offset: u8, value: u8) -> (r: Result<
    (),
    Error,
>)
    ensures
        r matches Err(e) ==> (e is Privilege || e is Io),
{
    let mut data: Vec<u8> = Vec::new();
    data.push(value);
    cam_write_bytes(bus, device, function, offset, &data)
}

/// Reads the 16-bit register at `offset` of the given function.
pub fn pci_read16(bus: u8, device: u8, function: u8, offset: u8) -> (r: Result<u16, Error>)
    ensures
        r matches Err(e) ==> (e is Privilege || e is Io),
{
    match cam_read_bytes(bus, device, function, offset, 2) {
        Ok(v) => Ok(u16_from_le(&v)),
        Err(e) => Err(e),
    }
}

/// Writes the 16-bit register at `offset` of the given function.
pub fn pci_write16(bus: u8, device: u8, function: u8, offset: u8, value: u16) -> (r: Result<
    (),
    Error,
>)
    ensures
        r matches Err(e) ==> (e is Privilege || e is Io),
{
    let data = u16_to_le(value);
    cam_write_bytes(bus, device, function, offset, &data)
}

/// Reads the 32-bit register at `offset` of the given function.
pub fn pci_read32(bus: u8, device: u8, function: u8, offset: u8) -> (r: Result<u32, Error>)
    ensures
        r matches Err(e) ==> (e is Privilege || e is Io),
{
    match cam_read_bytes(bus, device, function, offset, 4) {
        Ok(v) => Ok(u32_from_le(&v)),
        Err(e) => Err(e),
    }
}

/// Writes the 32-bit register at `offset` of the given function.
pub fn pci_write32(bus: u8, device: u8, function: u8, offset: u8, value: u32) -> (r: Result<
    (),
    Error,
>)
    ensures
        r matches Err(e) ==> (e is Privilege || e is Io),
{
    let data = u32_to_le(value);
    cam_write_bytes(bus, device, function, offset, &data)
}

/// Reads the 64-bit register at `offset` as two 32-bit reads, low word at
/// `offset` first, then high word at `offset + 4`, combined as
/// `(high << 32) | low`. The two halves are separate port transfers: the
/// value may be torn if the register changes between them.
pub fn pci_read64(bus: u8, device: u8, function: u8, offset: u8) -> (r: Result<u64, Error>)
    requires
        offset <= 0xfb,
    ensures
        r matches Err(e) ==> (e is Privilege || e is Io),
{
    let lo = match pci_read32(bus, device, function, offset) {
        Ok(v) => v,
        Err(e) => {
            return Err(e);
        },
    };
    let hi = match pci_read32(bus, device, function, offset + 4) {
        Ok(v) => v,
        Err(e) => {
            return Err(e);
        },
    };
    Ok(combine64(lo, hi))
}

/// Writes the 64-bit register at `offset` as two 32-bit writes, low word at
/// `offset` first, then high word at `offset + 4`.
pub fn pci_write64(bus: u8, device: u8, function: u8, offset: u8, value: u64) -> (r: Result<
    (),
    Error,
>)
    requires
        offset <= 0xfb,
    ensures
        r matches Err(e) ==> (e is Privilege || e is Io),
{
    match pci_write32(bus, device, function, offset, low32(value)) {
        Ok(_) => {},
        Err(e) => {
            return Err(e);
        },
    }
    pci_write32(bus, device, function, offset + 4, high32(value))
}

/// One PCI function on the CAM bus, named by its coordinates. The value
/// carries no live resource: every register operation performs its own
/// ephemeral acquire and release of the port device.
#[derive(Clone, Debug)]
pub struct Device {
    bus: u8,
    device: u8,
    function: u8,
}

/// The position of a triple in enumeration order: functions first, then
/// devices, then buses.
pub open spec fn rank_of(bus: u8, device: u8, function: u8) -> int {
    bus * 256 + device * 8 + function
}

impl Device {
    /// The bus this device sits on.
    pub closed spec fn spec_bus(self) -> u8 {
        self.bus
    }

    /// The device slot within the bus.
    pub closed spec fn spec_device(self) -> u8 {
        self.device
    }

    /// The function within the device.
    pub closed spec fn spec_function(self) -> u8 {
        self.function
    }

    /// The position of this device in enumeration order.
    pub open spec fn spec_rank(self) -> int {
        rank_of(self.spec_bus(), self.spec_device(), self.spec_function())
    }

    /// Opens the function at the given coordinates. No probe is made: the
    /// caller holds a name, not a live handle, and always receives it.
    pub fn open(bus: u8, device: u8, function: u8) -> (r: Result<Device, Error>)
        requires
            device < 32,
            function < 8,
        ensures
            r matches Ok(d) ==> d.spec_bus() == bus && d.spec_device() == device
                && d.spec_function() == function,
            r is Ok,
    {
        Ok(Device { bus, device, function })
    }

    pub fn bus(&self) -> (r: u8)
        ensures
            r == self.spec_bus(),
    {
        self.bus
    }

    pub fn device(&self) -> (r: u8)
        ensures
            r == self.spec_device(),
    {
        self.device
    }

    pub fn function(&self) -> (r: u8)
        ensures
            r == self.spec_function(),
    {
        self.function
    }

    /// The vendor identity word, at offset 0 of the configuration space.
    pub fn vendor_id(&self) -> (r: Result<u16, Error>)
        ensures
            r matches Err(e) ==> (e is Privilege || e is Io),
    {
        self.read16(0x00)
    }

    /// The device identity word, at offset 2 of the configuration space.
    pub fn device_id(&self) -> (r: Result<u16, Error>)
        ensures
            r matches Err(e) ==> (e is Privilege || e is Io),
    {
        self.read16(0x02)
    }

    pub fn read8(&self, offset: u8) -> (r: Result<u8, Error>)
        ensures
            r matches Err(e) ==> (e is Privilege || e is Io),
    {
        pci_read8(self.bus, self.device, self.function, offset)
    }

    pub fn write8(&mut self, offset: u8, value: u8) -> (r: Result<(), Error>)
        ensures
            *final(self) == *old(self),
            r matches Err(e) ==> (e is Privilege || e is Io),
    {
        pci_write8(self.bus, self.device, self.function, offset, value)
    }

    pub fn read16(&self, offset: u8) -> (r: Result<u16, Error>)
        ensures
            r matches Err(e) ==> (e is Privilege || e is Io),
    {
        pci_read16(self.bus, self.device, self.function, offset)
    }

    pub fn write16(&mut self, offset: u8, value: u16) -> (r: Result<(), Error>)
        ensures
            *final(self) == *old(self),
            r matches Err(e) ==> (e is Privilege || e is Io),
    {
        pci_write16(self.bus, self.device, self.function, offset, value)
    }

    pub fn read32(&self, offset: u8) -> (r: Result<u32, Error>)
        ensures
            r matches Err(e) ==> (e is Privilege || e is Io),
    {
        pci_read32(self.bus, self.device, self.function, offset)
    }

    pub fn write32(&mut self, offset: u8, value: u32) -> (r: Result<(), Error>)
        ensures
            *final(self) == *old(self),
            r matches Err(e) ==> (e is Privilege || e is Io),
    {
        pci_write32(self.bus, self.device, self.function, offset, value)
    }

    pub fn read64(&self, offset: u8) -> (r: Result<u64, Error>)
        requires
            offset <= 0xfb,
        ensures
            r matches Err(e) ==> (e is Privilege || e is Io),
    {
        pci_read64(self.bus, self.device, self.function, offset)
    }

    pub fn write64(&mut self, offset: u8, value: u64) -> (r: Result<(), Error>)
        requires
            offset <= 0xfb,
        ensures
            *final(self) == *old(self),
            r matches Err(e) ==> (e is Privilege || e is Io),
    {
        pci_write64(self.bus, self.device, self.function, offset, value)
    }

    /// Begins enumeration at the first triple. The cursor hands out at most
    /// 256 * 32 * 8 candidates and then runs out, whether or not any device
    /// is present.
    pub fn enumerate() -> (r: Result<DeviceIter, Error>)
        ensures
            r is Ok,
            r matches Ok(it) ==> it.wf() && !it.spec_exhausted() && it.rank() == 0
                && it.remaining() == 256 * 32 * 8,
    {
        Ok(DeviceIter { bus: 0, device: 0, function: 0, exhausted: false })
    }
}

/// Whether an identity pair shows the no-device sentinel in either word.
pub open spec fn spec_sentinel(ids: (u16, u16)) -> bool {
    ids.0 == 0xffff || ids.1 == 0xffff
}

/// The one filtering decision of enumeration, shared by the port-probing
/// walk and the simulated one: a candidate is present exactly when neither
/// identity word is the sentinel.
fn ids_present(vendor: u16, device: u16) -> (r: bool)
    ensures
        r == !spec_sentinel((vendor, device)),
{
    vendor != 0xffff && device != 0xffff
}

/// Equal ranks name equal triples: enumeration order is a bijection on the
/// valid coordinate space.
pub proof fn lemma_rank_injective(b1: u8, d1: u8, f1: u8, b2: u8, d2: u8, f2: u8)
    requires
        d1 < 32,
        f1 < 8,
        d2 < 32,
        f2 < 8,
        rank_of(b1, d1, f1) == rank_of(b2, d2, f2),
    ensures
        b1 == b2 && d1 == d2 && f1 == f2,
{
}

/// The lazy, forward-only cursor of CAM enumeration: the current triple,
/// advancing function first, then device, then bus, with a sticky flag once
/// the bus has wrapped.
#[derive(Clone, Debug)]
pub struct DeviceIter {
    bus: u8,
    device: u8,
    function: u8,
    exhausted: bool,
}

impl DeviceIter {
    /// The cursor's device and function stay within their ranges.
    pub closed spec fn wf(self) -> bool {
        self.device < 32 && self.function < 8
    }

    /// Whether the cursor has run out; once set, every later call yields
    /// nothing.
    pub closed spec fn spec_exhausted(self) -> bool {
        self.exhausted
    }

    /// The triple under the cursor.
    pub closed spec fn cursor(self) -> (u8, u8, u8) {
        (self.bus, self.device, self.function)
    }

    /// The cursor's position in enumeration order.
    pub open spec fn rank(self) -> int {
        rank_of(self.cursor().0, self.cursor().1, self.cursor().2)
    }

    /// How many candidate positions are left before the cursor runs out.
    pub open spec fn remaining(self) -> int {
        if self.spec_exhausted() {
            0
        } else {
            65536 - self.rank()
        }
    }

    /// A well-formed cursor never stands past the last rank, so the walk
    /// hands out at most 256 * 32 * 8 candidates in all.
    pub proof fn lemma_rank_bound(self)
        requires
            self.wf(),
        ensures
            0 <= self.rank() < 65536,
            0 <= self.remaining() <= 65536,
    {
    }

    /// The rank below which every candidate has already been handed out.
    spec fn frontier(self) -> int {
        if self.spec_exhausted() {
            65535
        } else {
            self.rank()
        }
    }

    /// Hands out the triple under the cursor and advances past it. The very
    /// last triple is consumed by the terminal wrap itself and is never
    /// handed out: the cursor runs out once the bus wraps past its highest
    /// value.
    pub fn next_candidate(&mut self) -> (r: Option<Device>)
        requires
            old(self).wf(),
        ensures
            final(self).wf(),
            (r is Some <==> !old(self).spec_exhausted() && old(self).rank() < 65535),
            old(self).spec_exhausted() ==> *final(self) == *old(self),
            r is None ==> final(self).spec_exhausted(),
            !old(self).spec_exhausted() && old(self).rank() < 65535
                ==> !final(self).spec_exhausted() && final(self).rank() == old(self).rank() + 1,
            r matches Some(d) ==> {
                &&& d.spec_bus() == old(self).cursor().0
                &&& d.spec_device() == old(self).cursor().1
                &&& d.spec_function() == old(self).cursor().2
                &&& d.spec_device() < 32
                &&& d.spec_function() < 8
                &&& d.spec_rank() == old(self).rank()
                &&& final(self).remaining() == old(self).remaining() - 1
            },
    {
        if self.exhausted {
            return None;
        }
        let d = Device { bus: self.bus, device: self.device, function: self.function };
        if self.function < 7 {
            self.function = self.function + 1;
        } else {
            self.function = 0;
            if self.device < 31 {
                self.device = self.device + 1;
            } else {
                self.device = 0;
                if self.bus < 255 {
                    self.bus = self.bus + 1;
                } else {
                    self.bus = 0;
                    self.exhausted = true;
                    return None;
                }
            }
        }
        Some(d)
    }

    /// Yields the next present device on the bus: advances the cursor and
    /// probes each candidate's vendor and device words through the ports,
    /// skipping any that answers the no-device sentinel in either word. A
    /// failed probe ends enumeration for good with nothing yielded — an
    /// absent device cannot be told from an error, and the terminal state
    /// is sticky.
    pub fn next(&mut self) -> (r: Option<Device>)
        requires
            old(self).wf(),
        ensures
            final(self).wf(),
            final(self).remaining() <= old(self).remaining(),
            r is Some ==> final(self).remaining() < old(self).remaining(),
            old(self).spec_exhausted() ==> r is None && *final(self) == *old(self),
            r is None ==> final(self).spec_exhausted(),
            r matches Some(d) ==> {
                &&& d.spec_device() < 32
                &&& d.spec_function() < 8
                &&& !old(self).spec_exhausted()
                &&& old(self).rank() <= d.spec_rank() < 65535
                &&& !final(self).spec_exhausted()
                &&& final(self).rank() == d.spec_rank() + 1
            },
    {
        loop
            invariant
                self.wf(),
                self.remaining() <= old(self).remaining(),
                old(self).spec_exhausted() ==> *self == *old(self),
                !old(self).spec_exhausted() ==> !self.spec_exhausted() ==> old(self).rank()
                    <= self.rank(),
            decreases self.remaining(),
        {
            let candidate = match self.next_candidate() {
                Some(d) => d,
                None => {
                    return None;
                },
            };
            let vendor = match candidate.vendor_id() {
                Ok(v) => v,
                Err(_) => {
                    self.exhausted = true;
                    return None;
                },
            };
            if vendor != 0xffff {
                let device = match candidate.device_id() {
                    Ok(v) => v,
                    Err(_) => {
                        self.exhausted = true;
                        return None;
                    },
                };
                if ids_present(vendor, device) {
                    return Some(candidate);
                }
            }
        }
    }

    /// Walks the cursor over a simulated bus: as [`DeviceIter::next`], but
    /// each candidate's identity words are answered by `table` instead of
    /// the ports. Exactly the candidates whose pair shows no sentinel are
    /// yielded, in cursor order; every skipped rank answered a sentinel.
    pub fn next_in(&mut self, table: &IdTable) -> (r: Option<Device>)
        requires
            old(self).wf(),
        ensures
            final(self).wf(),
            final(self).remaining() <= old(self).remaining(),
            old(self).spec_exhausted() ==> r is None && *final(self) == *old(self),
            r is None ==> final(self).spec_exhausted(),
            r matches Some(d) ==> {
                &&& final(self).remaining() < old(self).remaining()
                &&& !old(self).spec_exhausted()
                &&& d.spec_device() < 32
                &&& d.spec_function() < 8
                &&& old(self).rank() <= d.spec_rank() < 65535
                &&& !final(self).spec_exhausted()
                &&& final(self).rank() == d.spec_rank() + 1
                &&& !spec_sentinel(
                    table.spec_ids(d.spec_bus(), d.spec_device(), d.spec_function()),
                )
                &&& forall|b2: u8, d2: u8, f2: u8|
                    d2 < 32 && f2 < 8 && old(self).rank() <= rank_of(b2, d2, f2) < d.spec_rank()
                        ==> spec_sentinel(#[trigger] table.spec_ids(b2, d2, f2))
            },
            r is None && !old(self).spec_exhausted() ==> forall|b2: u8, d2: u8, f2: u8|
                d2 < 32 && f2 < 8 && old(self).rank() <= rank_of(b2, d2, f2) < 65535
                    ==> spec_sentinel(#[trigger] table.spec_ids(b2, d2, f2)),
    {
        loop
            invariant
                self.wf(),
                self.remaining() <= old(self).remaining(),
                old(self).spec_exhausted() ==> *self == *old(self),
                !old(self).spec_exhausted() ==> !self.spec_exhausted() ==> old(self).rank()
                    <= self.rank(),
                !old(self).spec_exhausted() ==> forall|b2: u8, d2: u8, f2: u8|
                    d2 < 32 && f2 < 8 && old(self).rank() <= rank_of(b2, d2, f2)
                        < self.frontier() ==> spec_sentinel(#[trigger] table.spec_ids(b2, d2, f2)),
            decreases self.remaining(),
        {
            let candidate = match self.next_candidate() {
                Some(d) => d,
                None => {
                    return None;
                },
            };
            let ids = table.lookup(candidate.bus, candidate.device, candidate.function);
            if ids_present(ids.0, ids.1) {
                return Some(candidate);
            }
            proof {
                assert forall|b2: u8, d2: u8, f2: u8|
                    d2 < 32 && f2 < 8 && old(self).rank() <= rank_of(b2, d2, f2)
                        < self.frontier() implies spec_sentinel(
                    #[trigger] table.spec_ids(b2, d2, f2),
                ) by {
                    if rank_of(b2, d2, f2) == candidate.spec_rank() {
                        lemma_rank_injective(
                            b2,
                            d2,
                            f2,
                            candidate.spec_bus(),
                            candidate.spec_device(),
                            candidate.spec_function(),
                        );
                    }
                }
            }
        }
    }
}

/// The identity words of every triple on a simulated bus, with absent
/// triples answering the no-device sentinel pair. It stands in for the
/// hardware during enumeration: looking a triple up answers what probing
/// its vendor and device words would.
pub struct IdTable {
    entries: Vec<(u8, u8, u8, u16, u16)>,
}

/// The pair the entry list answers for a triple: the words of the latest
/// matching entry, or the sentinel pair.
spec fn ids_from(s: Seq<(u8, u8, u8, u16, u16)>, bus: u8, device: u8, function: u8) -> (u16, u16)
    decreases s.len(),
{
    if s.len() == 0 {
        (0xffffu16, 0xffffu16)
    } else if s.last().0 == bus && s.last().1 == device && s.last().2 == function {
        (s.last().3, s.last().4)
    } else {
        ids_from(s.drop_last(), bus, device, function)
    }
}

impl IdTable {
    /// The identity words the table answers for a triple.
    pub closed spec fn spec_ids(self, bus: u8, device: u8, function: u8) -> (u16, u16) {
        ids_from(self.entries@, bus, device, function)
    }

    /// An empty bus: every triple answers the sentinel pair.
    pub fn new() -> (r: IdTable)
        ensures
            forall|b: u8, d: u8, f: u8| r.spec_ids(b, d, f) == (0xffffu16, 0xffffu16),
    {
        IdTable { entries: Vec::new() }
    }

    /// Makes the function at the given coordinates present with the given
    /// identity words, overriding whatever the table answered for them
    /// before.
    pub fn insert(&mut self, bus: u8, device: u8, function: u8, vendor_id: u16, device_id: u16)
        ensures
            forall|b: u8, d: u8, f: u8|
                final(self).spec_ids(b, d, f) == if b == bus && d == device && f == function {
                    (vendor_id, device_id)
                } else {
                    old(self).spec_ids(b, d, f)
                },
    {
        self.entries.push((bus, device, function, vendor_id, device_id));
        proof {
            assert(self.entries@.drop_last() =~= old(self).entries@);
        }
    }

    /// Answers the identity words for a triple, as probing a simulated bus
    /// would.
    pub fn lookup(&self, bus: u8, device: u8, function: u8) -> (r: (u16, u16))
        ensures
            r == self.spec_ids(bus, device, function),
    {
        let mut i: usize = self.entries.len();
        proof {
            assert(self.entries@.take(i as int) =~= self.entries@);
        }
        while i > 0
            invariant
                i <= self.entries@.len(),
                ids_from(self.entries@.take(i as int), bus, device, function) == self.spec_ids(
                    bus,
                    device,
                    function,
                ),
            decreases i,
        {
            let e = self.entries[i - 1];
            proof {
                let t = self.entries@.take(i as int);
                assert(t.last() == self.entries@[i - 1]);
                assert(t.drop_last() =~= self.entries@.take(i as int - 1));
            }
            if e.0 == bus && e.1 == device && e.2 == function {
                return (e.3, e.4);
            }
            i = i - 1;
        }
        (0xffff, 0xffff)
    }
}

} // verus!
