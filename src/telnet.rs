//! One connection's session: the greeting, and the decision taken on each
//! outcome of a read. The caller performs the reads and writes.
use crate::zine_handler::{
    farewell_text, greeting_text, quit_response, quit_text, same_text, transition_spec, ZineHandler,
    ZineState,
};
use crate::text::{lemma_trimmed_unchanged, trim_text, trimmed};
use vstd::prelude::*;

verus! {

/// The text that `String::from_utf8_lossy` makes of `bytes`.
pub uninterp spec fn lossy_utf8(bytes: Seq<u8>) -> Seq<char>;


/// The disconnect sentinel: the three bytes a client sends to say it is
/// leaving.
pub open spec fn sentinel_bytes() -> Seq<u8> {
    seq![0xFFu8, 0xFDu8, 0x12u8]
}

/// Relies on `String::from_utf8_lossy`: the bytes as text, each invalid
/// sequence replaced by U+FFFD; the result depends on the bytes alone. The
/// bytes `FF` and `FD` never occur in UTF-8, so each becomes one U+FFFD.
#[verifier::external_body]
fn decode_lossy(bytes: &[u8]) -> (r: String)
    ensures
        r@ == lossy_utf8(bytes@),
        bytes@ == sentinel_bytes() ==> r@ == quit_text(),
{
    String::from_utf8_lossy(bytes).into_owned()
}

/// One line of input as it was read: decoded leniently, then trimmed.
pub fn decode_line(bytes: &[u8]) -> (r: String)
    ensures
        r@ == trimmed(lossy_utf8(bytes@)),
        bytes@ == sentinel_bytes() ==> r@ == quit_text(),
{
    proof {
        if bytes@ == sentinel_bytes() {
            assert(0xFFFDu32 == '\u{FFFD}' as u32 && 0x12u32 == '\u{12}' as u32);
            lemma_trimmed_unchanged(quit_text());
        }
    }
    let decoded = decode_lossy(bytes);
    trim_text(decoded.as_str())
}

/// What a read from the connection gave.
#[derive(Clone, Debug)]
pub enum ReadEvent {
    /// Some bytes arrived.
    Data(Vec<u8>),
    /// The peer closed the connection.
    Closed,
    /// The read would have blocked.
    WouldBlock,
    /// The read failed for good.
    Failed,
}

/// What the caller does next.
#[derive(Clone, Debug)]
pub enum SessionAction {
    /// Write the text, then read again.
    Send(String),
    /// Write the farewell, shut the connection down, and end the session.
    Close(String),
    /// End the session without writing anything more.
    Finish,
    /// Read again.
    Retry,
    /// End the session on an error.
    Abort,
}

/// The session of one connection: its reader's navigation, and whether it
/// is still open.
#[derive(Clone, Debug)]
pub struct TelnetSession {
    handler: ZineHandler,
    open: bool,
}

impl TelnetSession {
    /// The reader's navigation.
    pub closed spec fn navigation(&self) -> ZineHandler {
        self.handler
    }

    /// Whether the session still takes input.
    pub closed spec fn is_open(&self) -> bool {
        self.open
    }

    /// A new, open session with a reader on the front page.
    pub fn new(handler: ZineHandler) -> (r: Self)
        ensures
            r.navigation() == handler,
            r.is_open(),
    {
        TelnetSession { handler, open: true }
    }

    /// Whether the session still takes input.
    pub fn open(&self) -> (r: bool)
        ensures
            r == self.is_open(),
    {
        self.open
    }

    /// The reader's current position.
    pub fn state(&self) -> (r: ZineState)
        ensures
            r == self.navigation().current(),
    {
        self.handler.state()
    }

    /// The greeting to send first: the cover screen, then the front page.
    pub fn on_connect(&mut self) -> (r: String)
        ensures
            r@ == greeting_text(old(self).navigation().content()),
            *final(self) == *old(self),
    {
        self.handler.on_connect()
    }

    /// The decision on one trimmed line of input. The disconnect sentinel
    /// and any step that gives the quit response close the session with the
    /// farewell; any other step sends what the navigation gives. A closed
    /// session writes nothing more.
    pub fn on_input(&mut self, line: &str) -> (r: SessionAction)
        ensures
            final(self).navigation().content() == old(self).navigation().content(),
            !old(self).is_open() ==> r is Finish && *final(self) == *old(self),
            old(self).is_open() && line@ == quit_text() ==> {
                &&& r is Close
                &&& r->Close_0@ == farewell_text()
                &&& !final(self).is_open()
                &&& final(self).navigation().current() == old(self).navigation().current()
            },
            old(self).is_open() && line@ != quit_text() ==> {
                let step = transition_spec(
                    old(self).navigation().current(),
                    line@,
                    old(self).navigation().content(),
                );
                &&& final(self).navigation().current() == step.0
                &&& step.1 == quit_text() ==> r is Close && r->Close_0@ == farewell_text()
                    && !final(self).is_open()
                &&& step.1 != quit_text() ==> r is Send && r->Send_0@ == step.1
                    && final(self).is_open()
            },
            old(self).navigation().wf() ==> final(self).navigation().wf(),
    {
        if !self.open {
            return SessionAction::Finish;
        }
        let quit = self.handler.quit();
        if same_text(line, quit.as_str()) {
            self.open = false;
            return SessionAction::Close(self.handler.on_quit());
        }
        let output = self.handler.handle(line);
        if same_text(output.as_str(), quit.as_str()) {
            self.open = false;
            SessionAction::Close(self.handler.on_quit())
        } else {
            SessionAction::Send(output)
        }
    }

    /// The decision on one outcome of a read: bytes are decoded into a line
    /// and handled as `on_input` says; a closed connection ends the session
    /// quietly, a read that would block is retried, and a failed read aborts.
    pub fn on_read(&mut self, event: ReadEvent) -> (r: SessionAction)
        ensures
            final(self).navigation().content() == old(self).navigation().content(),
            !old(self).is_open() ==> r is Finish && *final(self) == *old(self),
            old(self).is_open() && event is Data && event->Data_0@ == sentinel_bytes() ==> {
                &&& r is Close
                &&& r->Close_0@ == farewell_text()
                &&& !final(self).is_open()
            },
            old(self).is_open() ==> match event {
                ReadEvent::Data(bytes) => {
                    let line = trimmed(lossy_utf8(bytes@));
                    let step = transition_spec(
                        old(self).navigation().current(),
                        line,
                        old(self).navigation().content(),
                    );
                    if line == quit_text() {
                        &&& r is Close
                        &&& r->Close_0@ == farewell_text()
                        &&& !final(self).is_open()
                        &&& final(self).navigation().current() == old(self).navigation().current()
                    } else {
                        &&& final(self).navigation().current() == step.0
                        &&& step.1 == quit_text() ==> r is Close && r->Close_0@ == farewell_text()
                            && !final(self).is_open()
                        &&& step.1 != quit_text() ==> r is Send && r->Send_0@ == step.1
                            && final(self).is_open()
                    }
                },
                ReadEvent::Closed => r is Finish && !final(self).is_open()
                    && final(self).navigation() == old(self).navigation(),
                ReadEvent::WouldBlock => r is Retry && *final(self) == *old(self),
                ReadEvent::Failed => r is Abort && !final(self).is_open()
                    && final(self).navigation() == old(self).navigation(),
            },
            old(self).navigation().wf() ==> final(self).navigation().wf(),
    {
        if !self.open {
            return SessionAction::Finish;
        }
        match event {
            ReadEvent::Data(bytes) => {
                let line = decode_line(bytes.as_slice());
                self.on_input(line.as_str())
            },
            ReadEvent::Closed => {
                self.open = false;
                SessionAction::Finish
            },
            ReadEvent::WouldBlock => SessionAction::Retry,
            ReadEvent::Failed => {
                self.open = false;
                SessionAction::Abort
            },
        }
    }
}


/// A handler of the line protocol: the text to send for each line, on
/// connect and on leaving, and the quit response that ends a session.
pub trait TelnetHandler {
    fn handle(&mut self, input: &str) -> String;

    fn on_connect(&mut self) -> String {
        String::new()
    }

    fn on_quit(&mut self) -> String {
        String::new()
    }

    fn quit(&self) -> String {
        quit_response()
    }
}

impl TelnetHandler for ZineHandler {
    fn handle(&mut self, input: &str) -> String {
        ZineHandler::handle(self, input)
    }

    fn on_connect(&mut self) -> String {
        ZineHandler::on_connect(self)
    }

}

} // verus!
