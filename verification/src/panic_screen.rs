//! The screen shown when the game stops on a fatal error.
use crate::display::color::{rgb_24bpp, spec_convert_24bpp_15bpp, spec_rgb};
use crate::display::fonts::FontTables;
use crate::display::terminal::{
    activated, config_for, empty_writer, fed, flushed, font_upload_ok, palette_with_color,
    wrote_str, ActiveTerminalAccess, FontUpload, TermConfig, Terminal, TerminalSettings,
    TerminalView, WriterView, PALETTE_SIZE,
};
use crate::mmio::display::DispCnt;
use crate::sync::LockSet;
use vstd::prelude::*;

verus! {

/// Feeds several strings, one after the other, to a terminal writer.
pub open spec fn fed_parts(c: TermConfig, w: WriterView, v: TerminalView, parts: Seq<Seq<char>>) -> (
    WriterView,
    TerminalView,
)
    decreases parts.len(),
{
    if parts.len() == 0 {
        (w, v)
    } else {
        let r = fed_parts(c, w, v, parts.drop_last());
        fed(c, r.0, r.1, parts.last())
    }
}

/// The state after writing several strings through one terminal writer and flushing it.
pub open spec fn wrote_parts(c: TermConfig, v: TerminalView, parts: Seq<Seq<char>>) -> TerminalView {
    let r = fed_parts(c, empty_writer(), v, parts);
    flushed(c, r.0, r.1).1
}

/// The contents of strings.
pub open spec fn contents(parts: Seq<&str>) -> Seq<Seq<char>> {
    Seq::new(parts.len(), |i: int| parts[i]@)
}

/// Writes several strings through one word-wrapping writer, as one formatted message.
pub fn write_parts(terminal: &mut ActiveTerminalAccess, parts: &[&str])
    requires
        old(terminal).inv(),
    ensures
        final(terminal).view() == wrote_parts(old(terminal).cfg(), old(terminal).view(), contents(parts@)),
        final(terminal).cfg() == old(terminal).cfg(),
        final(terminal).holds_lock() == old(terminal).holds_lock(),
        final(terminal).inv(),
{
    let ghost c = terminal.cfg();
    let ghost v0 = terminal.view();
    let mut w = terminal.write();
    let mut i: usize = 0;
    while i < parts.len()
        invariant
            terminal.inv(),
            terminal.cfg() == c,
            terminal.holds_lock() == old(terminal).holds_lock(),
            w.wf(),
            i <= parts@.len(),
            (w.view(), terminal.view()) == fed_parts(c, empty_writer(), v0, contents(parts@).subrange(0, i as int)),
        decreases parts@.len() - i,
    {
        proof {
            let pre = contents(parts@).subrange(0, i as int + 1);
            assert(pre.drop_last() =~= contents(parts@).subrange(0, i as int));
            assert(pre.last() == parts@[i as int]@);
        }
        w.write_str(terminal, parts[i]);
        i = i + 1;
    }
    proof {
        assert(contents(parts@).subrange(0, parts@.len() as int) =~= contents(parts@));
    }
    w.finish(terminal);
}

/// The notice at the top of the panic screen.
pub open spec fn panic_notice() -> &'static str {
    "The Game Pak has encountered a serious error and has shut down to prevent unexpected behavior. Your progress since the last time you saved may have been lost.\n\n"
}

/// The panic screen after its head is written: the title at column 17 of the top row, then,
/// in half-width characters, the notice, the bug report address where there is one, and the
/// version line.
pub open spec fn panic_head(
    c: TermConfig,
    v: TerminalView,
    repo: Seq<char>,
    cname: Seq<char>,
    cver: Seq<char>,
    lgba_version: Seq<char>,
) -> TerminalView {
    let v1 = TerminalView { cursor_x: 17, cursor_y: 0, ..v };
    let v2 = wrote_str(c, v1, "Fatal Error!\n\n"@);
    let v3 = TerminalView { cursor_hw: true, ..v2 };
    let v4 = wrote_str(c, v3, panic_notice()@);
    let v5 = if repo.len() != 0 {
        wrote_parts(
            c,
            v4,
            seq!["This is likely a bug. You can report it at this URL:\n"@, repo, "\n\n"@],
        )
    } else {
        v4
    };
    wrote_parts(c, v5, seq!["Version : "@, cname, " "@, cver, " / lgba "@, lgba_version, "\n"@])
}

/// Writes the head of the panic screen: a title, a notice, the address where bugs are
/// reported, if the ROM names one, and the ROM's name and version with the library version.
pub fn write_panic_head(
    terminal: &mut ActiveTerminalAccess,
    repo: &str,
    cname: &str,
    cver: &str,
    lgba_version: &str,
)
    requires
        old(terminal).inv(),
    ensures
        final(terminal).view() == panic_head(
            old(terminal).cfg(),
            old(terminal).view(),
            repo@,
            cname@,
            cver@,
            lgba_version@,
        ),
        final(terminal).cfg() == old(terminal).cfg(),
        final(terminal).holds_lock() == old(terminal).holds_lock(),
        final(terminal).inv(),
{
    // print a common message for simple UX
    terminal.set_cursor(17, 0);
    terminal.write_str("Fatal Error!\n\n");
    terminal.set_half_width(true);
    terminal.write_str(
        "The Game Pak has encountered a serious error and has shut down to prevent unexpected behavior. Your progress since the last time you saved may have been lost.\n\n",
    );

    // write bug report message
    if repo.unicode_len() != 0 {
        let parts: [&str; 3] = ["This is likely a bug. You can report it at this URL:\n", repo, "\n\n"];
        let ghost v = terminal.view();
        write_parts(terminal, &parts);
        proof {
            assert(contents(parts@) =~= seq!["This is likely a bug. You can report it at this URL:\n"@, repo@, "\n\n"@]);
        }
    }

    // write version
    let parts: [&str; 7] = ["Version : ", cname, " ", cver, " / lgba ", lgba_version, "\n"];
    write_parts(terminal, &parts);
    proof {
        assert(contents(parts@) =~= seq!["Version : "@, cname@, " "@, cver@, " / lgba "@, lgba_version@, "\n"@]);
    }
}

/// The panic screen after the location line: the location where one is known.
pub open spec fn location_line(c: TermConfig, v: TerminalView, location: Option<Seq<char>>) -> TerminalView {
    match location {
        None => wrote_str(c, v, "Location: <unknown>\n"@),
        Some(l) => wrote_parts(c, v, seq!["Location: "@, l, "\n"@]),
    }
}

/// Writes the line that tells where the error happened.
pub fn write_location(terminal: &mut ActiveTerminalAccess, location: Option<&str>)
    requires
        old(terminal).inv(),
    ensures
        final(terminal).view() == location_line(
            old(terminal).cfg(),
            old(terminal).view(),
            match location {
                None => None,
                Some(l) => Some(l@),
            },
        ),
        final(terminal).cfg() == old(terminal).cfg(),
        final(terminal).holds_lock() == old(terminal).holds_lock(),
        final(terminal).inv(),
{
    match location {
        None => terminal.write_str("Location: <unknown>\n"),
        Some(location) => {
            let parts: [&str; 3] = ["Location: ", location, "\n"];
            write_parts(terminal, &parts);
            proof {
                assert(contents(parts@) =~= seq!["Location: "@, location@, "\n"@]);
            }
        },
    }
}

/// The panic screen after the message line: the message where one is known.
pub open spec fn message_line(c: TermConfig, v: TerminalView, message: Option<Seq<char>>) -> TerminalView {
    match message {
        None => wrote_str(c, v, "Message : <unknown>\n"@),
        Some(m) => wrote_parts(c, v, seq!["Message : "@, m, "\n"@]),
    }
}

/// Writes the line that gives the error message.
pub fn write_message(terminal: &mut ActiveTerminalAccess, message: Option<&str>)
    requires
        old(terminal).inv(),
    ensures
        final(terminal).view() == message_line(
            old(terminal).cfg(),
            old(terminal).view(),
            match message {
                None => None,
                Some(m) => Some(m@),
            },
        ),
        final(terminal).cfg() == old(terminal).cfg(),
        final(terminal).holds_lock() == old(terminal).holds_lock(),
        final(terminal).inv(),
{
    match message {
        None => terminal.write_str("Message : <unknown>\n"),
        Some(message) => {
            let parts: [&str; 3] = ["Message : ", message, "\n"];
            write_parts(terminal, &parts);
            proof {
                assert(contents(parts@) =~= seq!["Message : "@, message@, "\n"@]);
            }
        },
    }
}

/// Records that a panic started; returns whether one had already started, in which case the
/// game must stop at once.
pub fn panic_start(panicking: &mut bool) -> (double: bool)
    ensures
        double == *old(panicking),
        *final(panicking),
{
    let was = *panicking;
    *panicking = true;
    was
}

/// The red of the panic screen.
pub open spec fn panic_red() -> u16 {
    spec_rgb(spec_convert_24bpp_15bpp(200), spec_convert_24bpp_15bpp(0), spec_convert_24bpp_15bpp(0))
}

/// The settings of the panic screen's terminal: the first color white on red, the others white
/// on black.
pub open spec fn panic_settings() -> TerminalSettings {
    let colors = Seq::new(4, |i: int| (0u16, 0xFFFFu16));
    TerminalSettings {
        force_blank: false,
        dma_channel: None,
        colors: colors.update(0, (panic_red(), 0xFFFFu16)),
        palette: palette_with_color(Seq::new(PALETTE_SIZE as nat, |j: int| 0u16), 0, panic_red(), 0xFFFF),
    }
}

/// The terminal the panic screen is written on: a fresh terminal whose first color is white on
/// red, shown with the given font without taking the graphics lock, since the lock may be held
/// when the error happens. The font's character data, `font_words` 32-bit words at
/// `font_data`, is uploaded word by word as the returned upload describes.
pub fn panic_terminal(font: FontTables, font_data: usize, font_words: usize) -> (r: (ActiveTerminalAccess, FontUpload))
    requires
        font.wf(),
        font_words % 8 == 0,
        font_words / 8 < 1024,
    ensures
        r.0.inv(),
        r.0.cfg() == config_for(font@),
        r.0.view() == activated(config_for(font@), panic_settings()),
        r.0.dma() is None,
        !r.0.holds_lock(),
        font_upload_ok(r.1, font_data, font_words, None),
{
    let mut terminal = Terminal::new();
    terminal.set_color(0, rgb_24bpp(200, 0, 0), 0xFFFF);
    let mut locks = LockSet::new();
    let (terminal, upload, _) = terminal.activate_no_lock(font, font_data, font_words, DispCnt::new(), &mut locks);
    (terminal.lock(), upload)
}

} // verus!
