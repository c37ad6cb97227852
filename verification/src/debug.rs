//! Emitting debug messages on emulators: mGBA and no$gba.
//!
//! The emulator is detected once; on real hardware, or an emulator that is not recognized,
//! debugging is switched off. mGBA receives messages through a 256-byte buffer that is sent
//! at each newline and whenever it is full; no$gba receives them one character at a time.
use crate::bits::set_bits;
use crate::io::{
    IoWrite, MGBA_DEBUG_ENABLE, MGBA_DEBUG_ENABLE_INPUT, MGBA_DEBUG_ENABLE_OUTPUT,
    MGBA_DEBUG_FLAG, MGBA_DEBUG_STR, NO_CASH_CHAR,
};
use crate::mmio::emulator::{MgbaDebugFlag, MgbaDebugLevel};
use vstd::prelude::*;
use vstd::string::StringSliceAdditionalSpecFns;

verus! {

/// A debug level that a log message may be emitted at.
#[derive(Copy, Clone, Debug, PartialEq, Eq, Structural)]
pub enum DebugLevel {
    /// An error.
    Error,
    /// A warning.
    Warn,
    /// Information.
    Info,
    /// Debugging output.
    Debug,
}

/// The debug interface of the emulator the code runs on.
#[derive(Copy, Clone, Debug, PartialEq, Eq, Structural)]
pub enum DebugType {
    /// No debug interface.
    NoInterface,
    /// mGBA's debug interface.
    MGba,
    /// no$gba's debug interface.
    NoCash,
}

/// The signature no$gba shows at the start of its signature area.
pub open spec fn no_cash_signature() -> Seq<u8> {
    seq![110u8, 111u8, 36u8, 103u8, 98u8, 97u8, 32u8]
}

/// The debug interface detected from mGBA's answer in its enable register and the start of
/// no$gba's signature area.
pub open spec fn detected(readback: u16, sig: Seq<u8>) -> DebugType {
    if readback == MGBA_DEBUG_ENABLE_OUTPUT {
        DebugType::MGba
    } else if sig == no_cash_signature() {
        DebugType::NoCash
    } else {
        DebugType::NoInterface
    }
}

/// The write that asks mGBA to enable its debug interface.
pub fn mgba_probe_write() -> (r: IoWrite)
    ensures
        r == (IoWrite::U16 { addr: MGBA_DEBUG_ENABLE, value: MGBA_DEBUG_ENABLE_INPUT }),
{
    IoWrite::U16 { addr: MGBA_DEBUG_ENABLE, value: MGBA_DEBUG_ENABLE_INPUT }
}

/// The debug state: the interface detected, once detection has run, and whether debugging
/// logs any message.
pub struct DebugState {
    cached: Option<DebugType>,
    master: bool,
}

impl DebugState {
    /// The interface detected, once detection has run.
    pub closed spec fn cached(&self) -> Option<DebugType> {
        self.cached
    }

    /// Whether debugging logs any message.
    pub closed spec fn master(&self) -> bool {
        self.master
    }

    /// The state before detection: debugging is on.
    pub fn new() -> (r: Self)
        ensures
            r.cached() is None,
            r.master(),
    {
        DebugState { cached: None, master: true }
    }

    /// Returns whether debugging will actually log any messages.
    pub fn is_enabled(&self) -> (r: bool)
        ensures
            r == self.master(),
    {
        self.master
    }

    /// Whether the emulator still has to be probed: detection runs once.
    pub fn needs_detection(&self) -> (r: bool)
        ensures
            r == self.cached() is None,
    {
        self.cached.is_none()
    }

    /// The debug interface, detected once: after the probe write, from mGBA's answer in its
    /// enable register and the first bytes of no$gba's signature area. Without an interface,
    /// debugging is switched off. Once detected, the interface is kept and the arguments are
    /// not read.
    pub fn detect_debug_type(&mut self, readback: u16, sig: &[u8]) -> (r: DebugType)
        ensures
            old(self).cached() matches Some(t) ==> r == t && *final(self) == *old(self),
            old(self).cached() is None ==> {
                &&& r == detected(readback, sig@)
                &&& final(self).cached() == Some(r)
                &&& final(self).master() == (old(self).master() && r != DebugType::NoInterface)
            },
    {
        if let Some(t) = self.cached {
            return t;
        }
        let t = if readback == MGBA_DEBUG_ENABLE_OUTPUT {
            DebugType::MGba
        } else if is_no_cash_signature(sig) {
            DebugType::NoCash
        } else {
            self.master = false;
            DebugType::NoInterface
        };
        self.cached = Some(t);
        t
    }
}

/// Whether bytes are no$gba's signature.
fn is_no_cash_signature(sig: &[u8]) -> (r: bool)
    ensures
        r == (sig@ == no_cash_signature()),
{
    let expected: [u8; 7] = [110, 111, 36, 103, 98, 97, 32];
    assert(expected@ == no_cash_signature());
    if sig.len() != 7 {
        return false;
    }
    let mut i: usize = 0;
    while i < 7
        invariant
            sig@.len() == 7,
            expected@ == no_cash_signature(),
            i <= 7,
            forall|k: int| 0 <= k < i ==> sig@[k] == expected@[k],
        decreases 7 - i,
    {
        if sig[i] != expected[i] {
            return false;
        }
        i = i + 1;
    }
    assert(sig@ =~= no_cash_signature());
    true
}

/// The write that sends the mGBA buffer with the given flag.
pub open spec fn mgba_flag_write(flag: u16) -> IoWrite {
    IoWrite::U16 { addr: MGBA_DEBUG_FLAG, value: flag }
}

/// The writes for one byte sent to mGBA with `count` bytes in the buffer, and the count after:
/// carriage returns are dropped; a newline, or a full buffer, sends the buffer first; then the
/// byte is stored.
pub open spec fn mgba_step(count: nat, b: u8, flag: u16) -> (Seq<IoWrite>, nat) {
    if b == 13 {
        (Seq::empty(), count)
    } else {
        let flush = count == 256 || b == 10;
        let c: nat = if flush {
            0
        } else {
            count
        };
        let pre = if flush {
            seq![mgba_flag_write(flag)]
        } else {
            Seq::empty()
        };
        (pre.push(IoWrite::U8 { addr: (MGBA_DEBUG_STR + c) as usize, value: b }), c + 1)
    }
}

/// The writes for bytes sent to mGBA with `count` bytes in the buffer, and the count after.
pub open spec fn mgba_run(count: nat, bytes: Seq<u8>, flag: u16) -> (Seq<IoWrite>, nat)
    decreases bytes.len(),
{
    if bytes.len() == 0 {
        (Seq::empty(), count)
    } else {
        let r = mgba_run(count, bytes.drop_last(), flag);
        let s = mgba_step(r.1, bytes.last(), flag);
        (r.0 + s.0, s.1)
    }
}

/// Whether a write stays inside the mGBA buffer when it writes a byte.
pub open spec fn in_mgba_buffer(w: IoWrite) -> bool {
    w matches IoWrite::U8 { addr, .. } ==> MGBA_DEBUG_STR <= addr < MGBA_DEBUG_STR + 256
}

/// A writer of debug output to mGBA.
pub struct MgbaWriter {
    flag: MgbaDebugFlag,
    bytes_written: usize,
}

impl MgbaWriter {
    /// The flag that sends the buffer.
    pub closed spec fn flag(&self) -> u16 {
        self.flag@ as u16
    }

    /// The number of bytes in the buffer.
    pub closed spec fn count(&self) -> nat {
        self.bytes_written as nat
    }

    /// Whether the buffer count is within the buffer.
    pub closed spec fn wf(&self) -> bool {
        self.bytes_written <= 256 && self.flag@ < 0x10000
    }

    /// A writer with an empty buffer that sends it with the given flag.
    pub fn new(flag: MgbaDebugFlag) -> (r: Self)
        ensures
            r.flag() == flag@ as u16,
            r.count() == 0,
            r.wf(),
    {
        let bits = flag.bits();
        assert(flag@ == bits as u32);
        MgbaWriter { flag, bytes_written: 0 }
    }

    /// Sends bytes; returns the register writes. Every byte lands inside the buffer.
    pub fn write_bytes(&mut self, bytes: &[u8]) -> (r: Vec<IoWrite>)
        requires
            old(self).wf(),
        ensures
            final(self).wf(),
            final(self).flag() == old(self).flag(),
            (r@, final(self).count()) == mgba_run(old(self).count(), bytes@, old(self).flag()),
            forall|i: int| 0 <= i < r@.len() ==> in_mgba_buffer(#[trigger] r@[i]),
    {
        let mut out: Vec<IoWrite> = Vec::new();
        let mut i: usize = 0;
        let ghost c0 = self.count();
        let ghost flag = self.flag();
        while i < bytes.len()
            invariant
                self.wf(),
                self.flag() == flag,
                i <= bytes@.len(),
                (out@, self.count()) == mgba_run(c0, bytes@.subrange(0, i as int), flag),
                forall|k: int| 0 <= k < out@.len() ==> in_mgba_buffer(#[trigger] out@[k]),
            decreases bytes@.len() - i,
        {
            let byte = bytes[i];
            let ghost before = out@;
            proof {
                let pre = bytes@.subrange(0, i as int + 1);
                assert(pre.drop_last() =~= bytes@.subrange(0, i as int));
                assert(pre.last() == byte);
            }
            if byte != 13 {
                if self.bytes_written == 256 || byte == 10 {
                    out.push(IoWrite::U16 { addr: MGBA_DEBUG_FLAG, value: self.flag.bits() });
                    self.bytes_written = 0;
                }
                out.push(IoWrite::U8 { addr: MGBA_DEBUG_STR + self.bytes_written, value: byte });
                self.bytes_written = self.bytes_written + 1;
            }
            proof {
                assert(out@ =~= before + mgba_step(mgba_run(c0, bytes@.subrange(0, i as int), flag).1, byte, flag).0);
            }
            i = i + 1;
        }
        proof {
            assert(bytes@.subrange(0, bytes@.len() as int) =~= bytes@);
        }
        out
    }

    /// Sends a string; returns the register writes.
    pub fn write_str(&mut self, s: &str) -> (r: Vec<IoWrite>)
        requires
            old(self).wf(),
        ensures
            final(self).wf(),
            final(self).flag() == old(self).flag(),
            (r@, final(self).count()) == mgba_run(old(self).count(), s.spec_bytes(), old(self).flag()),
            forall|i: int| 0 <= i < r@.len() ==> in_mgba_buffer(#[trigger] r@[i]),
    {
        self.write_bytes(s.as_bytes())
    }

    /// Ends the output; returns the write that sends what is left in the buffer, if anything.
    pub fn finish(self) -> (r: Vec<IoWrite>)
        ensures
            self.count() != 0 ==> r@ == seq![mgba_flag_write(self.flag())],
            self.count() == 0 ==> r@.len() == 0,
    {
        let mut r = Vec::new();
        if self.bytes_written != 0 {
            r.push(IoWrite::U16 { addr: MGBA_DEBUG_FLAG, value: self.flag.bits() });
        }
        r
    }
}

/// The writes that send bytes to no$gba, one character at a time.
pub open spec fn no_cash_writes(bytes: Seq<u8>) -> Seq<IoWrite> {
    Seq::new(bytes.len(), |i: int| IoWrite::U8 { addr: NO_CASH_CHAR, value: bytes[i] })
}

/// A writer of debug output to no$gba.
pub struct NoCashWriter {
    _private: (),
}

impl NoCashWriter {
    /// A writer.
    pub fn new() -> (r: Self) {
        NoCashWriter { _private: () }
    }

    /// Sends a string; returns the register writes.
    pub fn write_str(&self, s: &str) -> (r: Vec<IoWrite>)
        ensures
            r@ == no_cash_writes(s.spec_bytes()),
    {
        let bytes = s.as_bytes();
        let mut out: Vec<IoWrite> = Vec::new();
        let mut i: usize = 0;
        while i < bytes.len()
            invariant
                bytes@ == s.spec_bytes(),
                i <= bytes@.len(),
                out@ == no_cash_writes(bytes@.subrange(0, i as int)),
            decreases bytes@.len() - i,
        {
            out.push(IoWrite::U8 { addr: NO_CASH_CHAR, value: bytes[i] });
            i = i + 1;
            assert(out@ =~= no_cash_writes(bytes@.subrange(0, i as int)));
        }
        assert(bytes@.subrange(0, bytes@.len() as int) =~= bytes@);
        out
    }
}

/// The level code mGBA uses for a debug level.
pub open spec fn mgba_level(level: DebugLevel) -> u32 {
    match level {
        DebugLevel::Error => 1,
        DebugLevel::Warn => 2,
        DebugLevel::Info => 3,
        DebugLevel::Debug => 4,
    }
}

/// The name no$gba output gives a debug level.
pub open spec fn level_name(level: DebugLevel) -> &'static str {
    match level {
        DebugLevel::Error => "Error",
        DebugLevel::Warn => "Warn",
        DebugLevel::Info => "Info",
        DebugLevel::Debug => "Debug",
    }
}

/// Where the text of a debug message goes.
pub enum DebugSink {
    /// mGBA's buffer.
    Mgba(MgbaWriter),
    /// no$gba's character output.
    NoCash(NoCashWriter),
}

/// Starts a debug message at a level, given whether debugging is on and the interface: `None`
/// where nothing is logged. For mGBA, the message goes to an empty buffer sent with the level
/// and the send bit; for no$gba, the returned writes start it with `User: [` and the level's
/// name.
pub fn debug_print_0(master: bool, debug_type: DebugType, level: DebugLevel) -> (r: Option<
    (DebugSink, Vec<IoWrite>),
>)
    ensures
        r is None <==> (!master || debug_type == DebugType::NoInterface),
        r matches Some((DebugSink::Mgba(w), writes)) ==> {
            &&& debug_type == DebugType::MGba
            &&& w.wf()
            &&& w.count() == 0
            &&& w.flag() == mgba_flag(level)
            &&& writes@.len() == 0
        },
        r matches Some((DebugSink::NoCash(_), writes)) ==> {
            &&& debug_type == DebugType::NoCash
            &&& writes@ == no_cash_writes("User: [".spec_bytes() + level_name(level).spec_bytes())
        },
{
    if !master {
        return None;
    }
    match debug_type {
        DebugType::NoInterface => None,
        DebugType::MGba => {
            let l = match level {
                DebugLevel::Error => MgbaDebugLevel::Error,
                DebugLevel::Warn => MgbaDebugLevel::Warn,
                DebugLevel::Info => MgbaDebugLevel::Info,
                DebugLevel::Debug => MgbaDebugLevel::Debug,
            };
            let flag = MgbaDebugFlag::default().with_level(l).with_send(true);
            Some((DebugSink::Mgba(MgbaWriter::new(flag)), Vec::new()))
        },
        DebugType::NoCash => {
            let w = NoCashWriter::new();
            let mut writes = w.write_str("User: [");
            let name = match level {
                DebugLevel::Error => "Error",
                DebugLevel::Warn => "Warn",
                DebugLevel::Info => "Info",
                DebugLevel::Debug => "Debug",
            };
            assert(name == level_name(level));
            let ghost first = writes@;
            let mut more = w.write_str(name);
            writes.append(&mut more);
            assert(writes@ =~= no_cash_writes("User: [".spec_bytes() + level_name(level).spec_bytes()));
            Some((DebugSink::NoCash(w), writes))
        },
    }
}


/// The flag that sends mGBA's buffer at a level.
pub open spec fn mgba_flag(level: DebugLevel) -> u16 {
    set_bits(set_bits(0, 0, 3, mgba_level(level)), 8, 1, 1) as u16
}

/// Logs a message at a level, given whether debugging is on and the interface; returns the
/// register writes. For mGBA the message goes through the buffer, which is sent at the end if
/// anything is left in it; for no$gba it follows `User: [` and the level's name.
pub fn debug_print(master: bool, debug_type: DebugType, level: DebugLevel, message: &str) -> (r: Vec<
    IoWrite,
>)
    ensures
        (!master || debug_type == DebugType::NoInterface) ==> r@.len() == 0,
        master && debug_type == DebugType::MGba ==> {
            let run = mgba_run(0, message.spec_bytes(), mgba_flag(level));
            r@ == run.0 + if run.1 != 0 {
                seq![mgba_flag_write(mgba_flag(level))]
            } else {
                Seq::empty()
            }
        },
        master && debug_type == DebugType::NoCash ==> r@ == no_cash_writes(
            "User: [".spec_bytes() + level_name(level).spec_bytes() + message.spec_bytes(),
        ),
{
    match debug_print_0(master, debug_type, level) {
        None => Vec::new(),
        Some((DebugSink::Mgba(w), mut writes)) => {
            let mut w = w;
            let mut body = w.write_str(message);
            let mut end = w.finish();
            writes.append(&mut body);
            writes.append(&mut end);
            writes
        },
        Some((DebugSink::NoCash(w), mut writes)) => {
            let ghost pre = writes@;
            let mut body = w.write_str(message);
            writes.append(&mut body);
            proof {
                assert(writes@ =~= no_cash_writes(
                    "User: [".spec_bytes() + level_name(level).spec_bytes() + message.spec_bytes(),
                ));
            }
            writes
        },
    }
}

} // verus!
