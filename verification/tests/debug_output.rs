use lgba::debug::{
    debug_print, debug_print_0, mgba_probe_write, DebugLevel, DebugSink, DebugState, DebugType,
    MgbaWriter, NoCashWriter,
};
use lgba::io::{
    IoWrite, MGBA_DEBUG_ENABLE, MGBA_DEBUG_ENABLE_INPUT, MGBA_DEBUG_ENABLE_OUTPUT, MGBA_DEBUG_FLAG,
    MGBA_DEBUG_STR, NO_CASH_CHAR,
};
use lgba::mmio::emulator::{MgbaDebugFlag, MgbaDebugLevel};

fn nocash(text: &str) -> Vec<IoWrite> {
    text.bytes().map(|b| IoWrite::U8 { addr: NO_CASH_CHAR, value: b }).collect()
}

#[test]
fn probe_write_asks_mgba() {
    assert_eq!(
        mgba_probe_write(),
        IoWrite::U16 { addr: MGBA_DEBUG_ENABLE, value: MGBA_DEBUG_ENABLE_INPUT }
    );
}

#[test]
fn detection_runs_once_and_finds_mgba() {
    let mut st = DebugState::new();
    assert!(st.needs_detection());
    assert!(st.is_enabled());
    assert_eq!(st.detect_debug_type(MGBA_DEBUG_ENABLE_OUTPUT, &[0; 7]), DebugType::MGba);
    assert!(!st.needs_detection());
    assert!(st.is_enabled());
    // Later answers are not read.
    assert_eq!(st.detect_debug_type(0, b"no$gba "), DebugType::MGba);
}

#[test]
fn detection_finds_no_cash_by_signature() {
    let mut st = DebugState::new();
    assert_eq!(st.detect_debug_type(0, b"no$gba "), DebugType::NoCash);
    assert!(st.is_enabled());
}

#[test]
fn detection_without_interface_disables_debugging() {
    let mut st = DebugState::new();
    assert_eq!(st.detect_debug_type(0x1234, b"no$gbx "), DebugType::NoInterface);
    assert!(!st.is_enabled());
    assert!(!st.needs_detection());
    let mut st = DebugState::new();
    assert_eq!(st.detect_debug_type(0, b"no$gb"), DebugType::NoInterface);
}

#[test]
fn mgba_buffer_sends_at_newline_and_skips_carriage_return() {
    let flag = MgbaDebugFlag::new().with_level(MgbaDebugLevel::Info).with_send(true);
    assert_eq!(flag.bits(), 0x103);
    let mut w = MgbaWriter::new(flag);
    let out = w.write_str("a\r\nb");
    assert_eq!(
        out,
        vec![
            IoWrite::U8 { addr: MGBA_DEBUG_STR, value: b'a' },
            IoWrite::U16 { addr: MGBA_DEBUG_FLAG, value: 0x103 },
            IoWrite::U8 { addr: MGBA_DEBUG_STR, value: b'\n' },
            IoWrite::U8 { addr: MGBA_DEBUG_STR + 1, value: b'b' },
        ]
    );
    assert_eq!(w.finish(), vec![IoWrite::U16 { addr: MGBA_DEBUG_FLAG, value: 0x103 }]);
}

#[test]
fn mgba_buffer_sends_when_full() {
    let flag = MgbaDebugFlag::new().with_level(MgbaDebugLevel::Debug).with_send(true);
    let mut w = MgbaWriter::new(flag);
    let text = vec![b'x'; 257];
    let out = w.write_bytes(&text);
    assert_eq!(out.len(), 258);
    assert_eq!(out[255], IoWrite::U8 { addr: MGBA_DEBUG_STR + 255, value: b'x' });
    assert_eq!(out[256], IoWrite::U16 { addr: MGBA_DEBUG_FLAG, value: flag.bits() });
    assert_eq!(out[257], IoWrite::U8 { addr: MGBA_DEBUG_STR, value: b'x' });
    for wr in &out {
        if let IoWrite::U8 { addr, .. } = wr {
            assert!(*addr >= MGBA_DEBUG_STR && *addr < MGBA_DEBUG_STR + 256);
        }
    }
}

#[test]
fn empty_mgba_writer_sends_nothing_at_end() {
    let w = MgbaWriter::new(MgbaDebugFlag::new());
    assert!(w.finish().is_empty());
}

#[test]
fn no_cash_writer_sends_each_byte() {
    let w = NoCashWriter::new();
    assert_eq!(w.write_str("hi"), nocash("hi"));
}

#[test]
fn debug_print_is_silent_without_interface_or_when_off() {
    assert!(debug_print(false, DebugType::MGba, DebugLevel::Error, "x").is_empty());
    assert!(debug_print(true, DebugType::NoInterface, DebugLevel::Error, "x").is_empty());
    assert!(debug_print_0(true, DebugType::NoInterface, DebugLevel::Info).is_none());
    assert!(debug_print_0(false, DebugType::NoCash, DebugLevel::Info).is_none());
}

#[test]
fn debug_print_no_cash_prefixes_level() {
    let out = debug_print(true, DebugType::NoCash, DebugLevel::Warn, "] careful");
    assert_eq!(out, nocash("User: [Warn] careful"));
    match debug_print_0(true, DebugType::NoCash, DebugLevel::Error) {
        Some((DebugSink::NoCash(_), w)) => assert_eq!(w, nocash("User: [Error")),
        _ => panic!("expected a no$gba sink"),
    }
}

#[test]
fn debug_print_mgba_sends_buffer_with_level() {
    let out = debug_print(true, DebugType::MGba, DebugLevel::Error, "ok");
    assert_eq!(
        out,
        vec![
            IoWrite::U8 { addr: MGBA_DEBUG_STR, value: b'o' },
            IoWrite::U8 { addr: MGBA_DEBUG_STR + 1, value: b'k' },
            IoWrite::U16 { addr: MGBA_DEBUG_FLAG, value: 0x101 },
        ]
    );
    assert!(debug_print(true, DebugType::MGba, DebugLevel::Debug, "").is_empty());
}
