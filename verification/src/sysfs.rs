//! The filesystem backend: the same contract as the CAM backend, served by
//! the kernel's per-device directory. A device is named by its entry path;
//! its coordinates are re-parsed from that path on every call, its identity
//! words come from small text files, and its registers from positional
//! reads and writes on the entry's binary config file.

use vstd::prelude::*;

use crate::bytes::byte_buffer;
use crate::bytes::u16_from_le;
use crate::bytes::u16_to_le;
use crate::bytes::u32_from_le;
use crate::bytes::u32_to_le;
use crate::bytes::u64_from_le;
use crate::bytes::u64_to_le;
use crate::error::Error;
use crate::hex::hex_value;
use crate::hex::parse_hex_u16;
use crate::hex::spec_hex_digit_value;
use crate::hex::spec_is_hex_digit;
use crate::sys;

verus! {

/// The directory whose entries are the present devices.
pub open spec fn spec_root_path() -> Seq<u8> {
    seq![
        0x2f, 0x73, 0x79, 0x73, 0x2f, 0x62, 0x75, 0x73, 0x2f, 0x70, 0x63, 0x69, 0x2f, 0x64, 0x65,
        0x76, 0x69, 0x63, 0x65, 0x73,
    ]
}

fn root_path() -> (v: Vec<u8>)
    ensures
        v@ == spec_root_path(),
{
    let mut v: Vec<u8> = Vec::new();
    v.push(0x2f);
    v.push(0x73);
    v.push(0x79);
    v.push(0x73);
    v.push(0x2f);
    v.push(0x62);
    v.push(0x75);
    v.push(0x73);
    v.push(0x2f);
    v.push(0x70);
    v.push(0x63);
    v.push(0x69);
    v.push(0x2f);
    v.push(0x64);
    v.push(0x65);
    v.push(0x76);
    v.push(0x69);
    v.push(0x63);
    v.push(0x65);
    v.push(0x73);
    proof {
        assert(v@ =~= spec_root_path());
    }
    v
}

/// What stands between the root and the coordinates of every entry name:
/// a separator and the constant zero domain.
pub open spec fn spec_domain_prefix() -> Seq<u8> {
    seq![0x2f, 0x30, 0x30, 0x30, 0x30, 0x3a]
}

/// The full prefix of a well-formed device path, up to the bus digits.
pub open spec fn spec_path_prefix() -> Seq<u8> {
    spec_root_path() + spec_domain_prefix()
}

fn path_prefix() -> (v: Vec<u8>)
    ensures
        v@ == spec_path_prefix(),
{
    let mut v = root_path();
    v.push(0x2f);
    v.push(0x30);
    v.push(0x30);
    v.push(0x30);
    v.push(0x30);
    v.push(0x3a);
    proof {
        assert(v@ =~= spec_path_prefix());
    }
    v
}

/// The lower-case digit byte of the hexadecimal value `d`.
pub open spec fn spec_hex_char(d: u8) -> u8 {
    if d < 10 {
        (0x30 + d) as u8
    } else {
        (0x61 + (d - 10)) as u8
    }
}

fn hex_char(d: u8) -> (r: u8)
    requires
        d < 16,
    ensures
        r == spec_hex_char(d),
{
    if d < 10 {
        0x30 + d
    } else {
        0x61 + (d - 10)
    }
}

/// A hexadecimal digit byte written by the formatter reads back as itself.
proof fn lemma_hex_char_value(d: u8)
    requires
        d < 16,
    ensures
        spec_is_hex_digit(spec_hex_char(d) as char),
        spec_hex_digit_value(spec_hex_char(d) as char) == d,
{
}

/// The entry name's coordinate part: two bus digits, a separator, two
/// device digits, a dot, one function digit.
pub open spec fn spec_coord_part(bus: u8, device: u8, function: u8) -> Seq<u8> {
    seq![
        spec_hex_char(bus / 16), spec_hex_char(bus % 16), 0x3a, spec_hex_char(device / 16),
        spec_hex_char(device % 16), 0x2e, spec_hex_char(function % 16),
    ]
}

/// The path the backend gives the function at the given coordinates.
pub open spec fn spec_device_path(bus: u8, device: u8, function: u8) -> Seq<u8> {
    spec_path_prefix() + spec_coord_part(bus, device, function)
}

fn format_device_path(bus: u8, device: u8, function: u8) -> (v: Vec<u8>)
    requires
        function < 16,
    ensures
        v@ == spec_device_path(bus, device, function),
{
    let mut v = path_prefix();
    v.push(hex_char(bus / 16));
    v.push(hex_char(bus % 16));
    v.push(0x3a);
    v.push(hex_char(device / 16));
    v.push(hex_char(device % 16));
    v.push(0x2e);
    v.push(hex_char(function % 16));
    proof {
        assert(v@ =~= spec_device_path(bus, device, function));
    }
    v
}

/// What `parse_path` accepts: the exact prefix, then two hexadecimal bus
/// digits, `:`, two device digits, `.`, one function digit, with anything
/// allowed to follow. Nothing else parses.
pub open spec fn spec_parse_path(s: Seq<u8>) -> Option<(u8, u8, u8)> {
    let p = spec_path_prefix();
    let n = p.len() as int;
    if s.len() >= n + 7 && s.take(n) == p && spec_is_hex_digit(s[n] as char)
        && spec_is_hex_digit(s[n + 1] as char) && s[n + 2] == 0x3a && spec_is_hex_digit(
        s[n + 3] as char,
    ) && spec_is_hex_digit(s[n + 4] as char) && s[n + 5] == 0x2e && spec_is_hex_digit(
        s[n + 6] as char,
    ) {
        Some(
            (
                (spec_hex_digit_value(s[n] as char) * 16 + spec_hex_digit_value(
                    s[n + 1] as char,
                )) as u8,
                (spec_hex_digit_value(s[n + 3] as char) * 16 + spec_hex_digit_value(
                    s[n + 4] as char,
                )) as u8,
                spec_hex_digit_value(s[n + 6] as char) as u8,
            ),
        )
    } else {
        None
    }
}

/// Parses a device path back into its coordinates: the exact grammar of
/// [`spec_parse_path`], rejecting wrong digit counts and wrong separators.
pub fn parse_path(path: &Vec<u8>) -> (r: Option<(u8, u8, u8)>)
    ensures
        r == spec_parse_path(path@),
{
    let p = path_prefix();
    let n = p.len();
    if path.len() < n + 7 {
        return None;
    }
    let mut i: usize = 0;
    while i < n
        invariant
            i <= n,
            n == spec_path_prefix().len(),
            p@ == spec_path_prefix(),
            path@.len() >= n + 7,
            forall|j: int| 0 <= j < i ==> path@[j] == spec_path_prefix()[j],
        decreases n - i,
    {
        if path[i] != p[i] {
            proof {
                assert(path@.take(n as int)[i as int] == path@[i as int]);
            }
            return None;
        }
        i = i + 1;
    }
    proof {
        assert(path@.take(n as int) =~= spec_path_prefix());
    }
    let b1 = match hex_value(path[n]) {
        Some(v) => v,
        None => {
            return None;
        },
    };
    let b2 = match hex_value(path[n + 1]) {
        Some(v) => v,
        None => {
            return None;
        },
    };
    if path[n + 2] != 0x3a {
        return None;
    }
    let d1 = match hex_value(path[n + 3]) {
        Some(v) => v,
        None => {
            return None;
        },
    };
    let d2 = match hex_value(path[n + 4]) {
        Some(v) => v,
        None => {
            return None;
        },
    };
    if path[n + 5] != 0x2e {
        return None;
    }
    let f = match hex_value(path[n + 6]) {
        Some(v) => v,
        None => {
            return None;
        },
    };
    Some((b1 * 16 + b2, d1 * 16 + d2, f))
}

/// Formatting any valid coordinates and re-parsing the path yields them
/// again: the path grammar loses nothing.
pub proof fn lemma_path_round_trip(bus: u8, device: u8, function: u8)
    requires
        function < 16,
    ensures
        spec_parse_path(spec_device_path(bus, device, function)) == Some(
            (bus, device, function),
        ),
{
    let s = spec_device_path(bus, device, function);
    let p = spec_path_prefix();
    let n = p.len() as int;
    assert(s.take(n) =~= p);
    assert(s[n] == spec_hex_char(bus / 16));
    assert(s[n + 1] == spec_hex_char(bus % 16));
    assert(s[n + 2] == 0x3a);
    assert(s[n + 3] == spec_hex_char(device / 16));
    assert(s[n + 4] == spec_hex_char(device % 16));
    assert(s[n + 5] == 0x2e);
    assert(s[n + 6] == spec_hex_char(function % 16));
    lemma_hex_char_value(bus / 16);
    lemma_hex_char_value(bus % 16);
    lemma_hex_char_value(device / 16);
    lemma_hex_char_value(device % 16);
    lemma_hex_char_value(function % 16);
}

/// The bus a path names, with the lossy fallback the accessors use: a path
/// that does not parse reports coordinate zero.
pub open spec fn spec_bus_of(s: Seq<u8>) -> u8 {
    match spec_parse_path(s) {
        Some(t) => t.0,
        None => 0,
    }
}

/// The device slot a path names, or zero when the path does not parse.
pub open spec fn spec_device_of(s: Seq<u8>) -> u8 {
    match spec_parse_path(s) {
        Some(t) => t.1,
        None => 0,
    }
}

/// The function a path names, or zero when the path does not parse.
pub open spec fn spec_function_of(s: Seq<u8>) -> u8 {
    match spec_parse_path(s) {
        Some(t) => t.2,
        None => 0,
    }
}

/// One PCI function, named by its directory entry's path. The value holds
/// no open handle: every operation opens and closes its own descriptor.
#[derive(Clone, Debug)]
pub struct Device {
    path: Vec<u8>,
}

impl Device {
    /// The path naming this device.
    pub closed spec fn spec_path(self) -> Seq<u8> {
        self.path@
    }

    /// Opens the function at the given coordinates by forming its entry
    /// path. No probe is made: the caller always receives the name.
    pub fn open(bus: u8, device: u8, function: u8) -> (r: Result<Device, Error>)
        requires
            device < 32,
            function < 8,
        ensures
            r is Ok,
            r matches Ok(d) ==> d.spec_path() == spec_device_path(bus, device, function),
    {
        Ok(Device { path: format_device_path(bus, device, function) })
    }

    /// The bus this device sits on, re-parsed from the path on every call;
    /// a malformed path reports bus zero.
    pub fn bus(&self) -> (r: u8)
        ensures
            r == spec_bus_of(self.spec_path()),
    {
        match parse_path(&self.path) {
            Some(t) => t.0,
            None => 0,
        }
    }

    /// The device slot within the bus, re-parsed from the path on every
    /// call; a malformed path reports slot zero.
    pub fn device(&self) -> (r: u8)
        ensures
            r == spec_device_of(self.spec_path()),
    {
        match parse_path(&self.path) {
            Some(t) => t.1,
            None => 0,
        }
    }

    /// The function within the device, re-parsed from the path on every
    /// call; a malformed path reports function zero.
    pub fn function(&self) -> (r: u8)
        ensures
            r == spec_function_of(self.spec_path()),
    {
        match parse_path(&self.path) {
            Some(t) => t.2,
            None => 0,
        }
    }

    /// This device's path with `/` and the given file name appended.
    fn child_path(&self, name: &Vec<u8>) -> (v: Vec<u8>)
        ensures
            v@ == self.spec_path() + seq![0x2f] + name@,
    {
        let mut v: Vec<u8> = Vec::new();
        let n = self.path.len();
        let mut i: usize = 0;
        proof {
            assert(v@ =~= self.path@.take(0));
        }
        while i < n
            invariant
                i <= n,
                n == self.path@.len(),
                v@ == self.path@.take(i as int),
            decreases n - i,
        {
            v.push(self.path[i]);
            proof {
                assert(self.path@.take(i as int).push(self.path@[i as int]) =~= self.path@.take(
                    i as int + 1,
                ));
            }
            i = i + 1;
        }
        v.push(0x2f);
        let ghost base = self.path@ + seq![0x2f];
        proof {
            assert(self.path@.take(n as int) =~= self.path@);
            assert(v@ =~= base + name@.take(0));
        }
        let m = name.len();
        let mut j: usize = 0;
        while j < m
            invariant
                j <= m,
                m == name@.len(),
                base == self.path@ + seq![0x2f],
                v@ == base + name@.take(j as int),
            decreases m - j,
        {
            v.push(name[j]);
            proof {
                assert((base + name@.take(j as int)).push(name@[j as int]) =~= base + name@.take(
                    j as int + 1,
                ));
            }
            j = j + 1;
        }
        proof {
            assert(base + name@.take(m as int) =~= self.spec_path() + seq![0x2f] + name@);
        }
        v
    }

    /// The vendor identity word: the `vendor` file's text, trimmed, an
    /// optional `0x` prefix stripped, parsed as a base-16 16-bit value. A
    /// missing file fails with an I/O error, malformed text with a parse
    /// error.
    pub fn vendor_id(&self) -> (r: Result<u16, Error>)
        ensures
            r matches Err(e) ==> (e is Io || e is Parse),
    {
        let name = vendor_name();
        let p = self.child_path(&name);
        let content = match read_small_file(&p) {
            Ok(c) => c,
            Err(e) => {
                return Err(e);
            },
        };
        parse_hex_u16(&content)
    }

    /// The device identity word, from the `device` file, parsed exactly as
    /// [`Device::vendor_id`] parses its file.
    pub fn device_id(&self) -> (r: Result<u16, Error>)
        ensures
            r matches Err(e) ==> (e is Io || e is Parse),
    {
        let name = device_name();
        let p = self.child_path(&name);
        let content = match read_small_file(&p) {
            Ok(c) => c,
            Err(e) => {
                return Err(e);
            },
        };
        parse_hex_u16(&content)
    }

    /// One positional read of `n` bytes at `offset` of the `config` file,
    /// on a descriptor opened and closed for this call alone.
    fn config_read_bytes(&self, offset: u8, n: usize) -> (r: Result<Vec<u8>, Error>)
        requires
            1 <= n <= 8,
        ensures
            r matches Ok(v) ==> v@.len() == n,
            r matches Err(e) ==> e is Io,
    {
        let name = config_name();
        let p = self.child_path(&name);
        let fd = match sys::open_read(&p) {
            Ok(fd) => fd,
            Err(e) => {
                return Err(Error::Io(e));
            },
        };
        let mut buf = byte_buffer(n);
        let res = sys::pread_fd(fd, &mut buf, offset as u64);
        let _ = sys::close_fd(fd);
        match res {
            Ok(_) => Ok(buf),
            Err(e) => Err(Error::Io(e)),
        }
    }

    /// One positional write of the bytes of `data` at `offset` of the
    /// `config` file, on a descriptor opened and closed for this call
    /// alone.
    fn config_write_bytes(&self, offset: u8, data: &Vec<u8>) -> (r: Result<(), Error>)
        requires
            1 <= data@.len() <= 8,
        ensures
            r matches Err(e) ==> e is Io,
    {
        let name = config_name();
        let p = self.child_path(&name);
        let fd = match sys::open_write(&p) {
            Ok(fd) => fd,
            Err(e) => {
                return Err(Error::Io(e));
            },
        };
        let res = sys::pwrite_fd(fd, data, offset as u64);
        let _ = sys::close_fd(fd);
        match res {
            Ok(_) => Ok(()),
            Err(e) => Err(Error::Io(e)),
        }
    }

    /// Reads the 8-bit register at `offset`: one positional one-byte read.
    pub fn read_u8(&self, offset: u8) -> (r: Result<u8, Error>)
        ensures
            r matches Err(e) ==> e is Io,
    {
        match self.config_read_bytes(offset, 1) {
            Ok(v) => Ok(v[0]),
            Err(e) => Err(e),
        }
    }

    /// Writes the 8-bit register at `offset`: one positional one-byte
    /// write.
    pub fn write_u8(&self, offset: u8, value: u8) -> (r: Result<(), Error>)
        ensures
            r matches Err(e) ==> e is Io,
    {
        let mut data: Vec<u8> = Vec::new();
        data.push(value);
        self.config_write_bytes(offset, &data)
    }

    /// Reads the 16-bit register at `offset`: two bytes in the host's
    /// order, which on the x86 hosts this backend serves is little-endian.
    pub fn read_u16(&self, offset: u8) -> (r: Result<u16, Error>)
        ensures
            r matches Err(e) ==> e is Io,
    {
        match self.config_read_bytes(offset, 2) {
            Ok(v) => Ok(u16_from_le(&v)),
            Err(e) => Err(e),
        }
    }

    /// Writes the 16-bit register at `offset` as two bytes in the host's
    /// order.
    pub fn write_u16(&self, offset: u8, value: u16) -> (r: Result<(), Error>)
        ensures
            r matches Err(e) ==> e is Io,
    {
        let data = u16_to_le(value);
        self.config_write_bytes(offset, &data)
    }

    /// Reads the 32-bit register at `offset`: four bytes in the host's
    /// order.
    pub fn read_u32(&self, offset: u8) -> (r: Result<u32, Error>)
        ensures
            r matches Err(e) ==> e is Io,
    {
        match self.config_read_bytes(offset, 4) {
            Ok(v) => Ok(u32_from_le(&v)),
            Err(e) => Err(e),
        }
    }

    /// Writes the 32-bit register at `offset` as four bytes in the host's
    /// order.
    pub fn write_u32(&self, offset: u8, value: u32) -> (r: Result<(), Error>)
        ensures
            r matches Err(e) ==> e is Io,
    {
        let data = u32_to_le(value);
        self.config_write_bytes(offset, &data)
    }

    /// Reads the 64-bit register at `offset`: one positional eight-byte
    /// read, bytes in the host's order.
    pub fn read_u64(&self, offset: u8) -> (r: Result<u64, Error>)
        ensures
            r matches Err(e) ==> e is Io,
    {
        match self.config_read_bytes(offset, 8) {
            Ok(v) => Ok(u64_from_le(&v)),
            Err(e) => Err(e),
        }
    }

    /// Writes the 64-bit register at `offset` as eight bytes in the host's
    /// order.
    pub fn write_u64(&self, offset: u8, value: u64) -> (r: Result<(), Error>)
        ensures
            r matches Err(e) ==> e is Io,
    {
        let data = u64_to_le(value);
        self.config_write_bytes(offset, &data)
    }

    /// Begins enumeration: one pass over the device directory, one device
    /// per entry, with no identity filtering — the directory lists present
    /// functions only.
    pub fn enumerate() -> (r: Result<DeviceIter, Error>)
        ensures
            r matches Ok(it) ==> it.wf() && !it.spec_done(),
            r matches Err(e) ==> e is Io,
    {
        let root = root_path();
        match sys::dir_open(&root) {
            Ok(entries) => Ok(DeviceIter { entries, dots: 0, done: false }),
            Err(e) => Err(Error::Io(e)),
        }
    }
}

fn vendor_name() -> (v: Vec<u8>)
    ensures
        v@ == seq![0x76u8, 0x65, 0x6e, 0x64, 0x6f, 0x72],
{
    let mut v: Vec<u8> = Vec::new();
    v.push(0x76);
    v.push(0x65);
    v.push(0x6e);
    v.push(0x64);
    v.push(0x6f);
    v.push(0x72);
    proof {
        assert(v@ =~= seq![0x76u8, 0x65, 0x6e, 0x64, 0x6f, 0x72]);
    }
    v
}

fn device_name() -> (v: Vec<u8>)
    ensures
        v@ == seq![0x64u8, 0x65, 0x76, 0x69, 0x63, 0x65],
{
    let mut v: Vec<u8> = Vec::new();
    v.push(0x64);
    v.push(0x65);
    v.push(0x76);
    v.push(0x69);
    v.push(0x63);
    v.push(0x65);
    proof {
        assert(v@ =~= seq![0x64u8, 0x65, 0x76, 0x69, 0x63, 0x65]);
    }
    v
}

fn config_name() -> (v: Vec<u8>)
    ensures
        v@ == seq![0x63u8, 0x6f, 0x6e, 0x66, 0x69, 0x67],
{
    let mut v: Vec<u8> = Vec::new();
    v.push(0x63);
    v.push(0x6f);
    v.push(0x6e);
    v.push(0x66);
    v.push(0x69);
    v.push(0x67);
    proof {
        assert(v@ =~= seq![0x63u8, 0x6f, 0x6e, 0x66, 0x69, 0x67]);
    }
    v
}

/// Reads the whole of one small identity file on a descriptor opened and
/// closed for this call alone. The files hold one short word of text;
/// content beyond a generous cap is treated as malformed rather than read
/// without bound.
fn read_small_file(path: &Vec<u8>) -> (r: Result<Vec<u8>, Error>)
    ensures
        r matches Err(e) ==> (e is Io || e is Parse),
{
    let fd = match sys::open_read(path) {
        Ok(fd) => fd,
        Err(e) => {
            return Err(Error::Io(e));
        },
    };
    let mut acc: Vec<u8> = Vec::new();
    let mut rounds: usize = 0;
    let mut done = false;
    let mut failed: Option<Error> = None;
    while !done && rounds < 256
        invariant
            rounds <= 256,
            failed matches Some(e) ==> e is Io,
        decreases 256 - rounds + (if done { 0int } else { 1 }),
    {
        let mut chunk = byte_buffer(64);
        match sys::read_fd(fd, &mut chunk) {
            Err(e) => {
                failed = Some(Error::Io(e));
                done = true;
            },
            Ok(n) => {
                if n == 0 {
                    done = true;
                } else {
                    let mut j: usize = 0;
                    while j < n
                        invariant
                            j <= n,
                            n <= chunk@.len(),
                        decreases n - j,
                    {
                        acc.push(chunk[j]);
                        j = j + 1;
                    }
                    rounds = rounds + 1;
                }
            },
        }
    }
    let _ = sys::close_fd(fd);
    match failed {
        Some(e) => Err(e),
        None => if done {
            Ok(acc)
        } else {
            Err(Error::Parse)
        },
    }
}

/// Whether `s` is one of the directory's two self-referential entry
/// names, which name the directory itself and its parent, never a device.
pub open spec fn spec_is_dot(s: Seq<u8>) -> bool {
    (s.len() == 1 && s[0] == 0x2e) || (s.len() == 2 && s[0] == 0x2e && s[1] == 0x2e)
}

/// Whether `name` is one of the directory's two self-referential entries.
fn is_dot_name(name: &Vec<u8>) -> (r: bool)
    ensures
        r == spec_is_dot(name@),
{
    if name.len() == 1 {
        name[0] == 0x2e
    } else if name.len() == 2 {
        name[0] == 0x2e && name[1] == 0x2e
    } else {
        false
    }
}

/// The device one directory entry yields: nothing for the directory's two
/// self-referential names, else the device named by the entry's full path
/// beneath the root — exactly those two outcomes.
pub fn device_for_entry(name: &Vec<u8>) -> (r: Option<Device>)
    ensures
        r is Some <==> !spec_is_dot(name@),
        r matches Some(d) ==> d.spec_path() == spec_root_path() + seq![0x2f] + name@,
{
    if is_dot_name(name) {
        return None;
    }
    let mut p = root_path();
    p.push(0x2f);
    let ghost base = spec_root_path() + seq![0x2f];
    proof {
        assert(p@ =~= base + name@.take(0));
    }
    let m = name.len();
    let mut j: usize = 0;
    while j < m
        invariant
            j <= m,
            m == name@.len(),
            base == spec_root_path() + seq![0x2f],
            p@ == base + name@.take(j as int),
        decreases m - j,
    {
        p.push(name[j]);
        proof {
            assert((base + name@.take(j as int)).push(name@[j as int]) =~= base + name@.take(
                j as int + 1,
            ));
        }
        j = j + 1;
    }
    proof {
        assert(base + name@.take(m as int) =~= spec_root_path() + seq![0x2f] + name@);
    }
    Some(Device { path: p })
}

/// The lazy sequence of present devices: one device per directory entry,
/// in directory order. The directory's two self-referential entries are
/// skipped; a failed directory read ends the sequence for good with
/// nothing yielded, as CAM enumeration's probe failures do, and the
/// terminal state is sticky.
#[derive(Debug)]
pub struct DeviceIter {
    entries: nix::dir::OwningIter,
    dots: u8,
    done: bool,
}

impl DeviceIter {
    /// At most the directory's two self-referential entries have been
    /// skipped.
    pub closed spec fn wf(self) -> bool {
        self.dots <= 2
    }

    /// Whether the walk has ended; once set, every later call yields
    /// nothing.
    pub closed spec fn spec_done(self) -> bool {
        self.done
    }

    /// Yields the device named by the next directory entry, skipping the
    /// directory's own `.` and `..` entries. The end of the stream, a read
    /// failure, or a stream that keeps answering self-referential names
    /// all end the sequence for good.
    pub fn next(&mut self) -> (r: Option<Device>)
        requires
            old(self).wf(),
        ensures
            final(self).wf(),
            old(self).spec_done() ==> r is None && *final(self) == *old(self),
            r is None ==> final(self).spec_done(),
            r matches Some(d) ==> exists|name: Seq<u8>|
                !spec_is_dot(name) && d.spec_path() == spec_root_path() + seq![0x2f] + name,
    {
        if self.done {
            return None;
        }
        loop
            invariant
                self.wf(),
                !old(self).spec_done(),
            decreases 3 - self.dots,
        {
            let name = match sys::dir_next_name(&mut self.entries) {
                None => {
                    self.done = true;
                    return None;
                },
                Some(Err(_)) => {
                    self.done = true;
                    return None;
                },
                Some(Ok(name)) => name,
            };
            match device_for_entry(&name) {
                Some(d) => {
                    proof {
                        assert(!spec_is_dot(name@) && d.spec_path() == spec_root_path() + seq![
                            0x2f,
                        ] + name@);
                    }
                    return Some(d);
                },
                None => {
                    if self.dots >= 2 {
                        self.done = true;
                        return None;
                    }
                    self.dots = self.dots + 1;
                },
            }
        }
    }
}

} // verus!
