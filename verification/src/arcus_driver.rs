//! The line protocol of the controller: commands out, one response line in.
//!
//! A command is text followed by one carriage return.  A response is the
//! bytes up to the first line terminator, after any terminators that arrive
//! before the first content byte.  The driver never reads or writes a port; it
//! produces the bytes to transmit and is handed the outcome of each byte read.

use vstd::prelude::*;
use vstd::string::*;
use vstd::utf8::*;
use crate::decimal::{
    decimal, lemma_decimal_is_trimmed, lemma_decimal_round_trip, parse_i32, parse_trimmed,
    push_decimal, trim,
};
use crate::error::ArcusError;

verus! {

/// How long one byte read may wait before it times out, in milliseconds.
pub const READ_TIMEOUT_MS: u64 = 100;

/// The byte that ends every command.
pub const CARRIAGE_RETURN: u8 = 0x0D;

/// The other byte that ends a response line.
pub const LINE_FEED: u8 = 0x0A;

/// How the serial port of a controller is opened.
#[derive(Debug, Clone, PartialEq, Eq)]
pub struct PortSettings {
    pub port_name: String,
    pub baud_rate: u32,
    pub timeout_ms: u64,
}

/// What one read of a single byte from the port gave.
#[derive(Debug, Clone, PartialEq, Eq)]
pub enum ReadEvent {
    /// A byte arrived.
    Byte(u8),
    /// The read returned without a byte and without an error.
    Empty,
    /// The read timed out.
    TimedOut,
    /// The read failed otherwise; holds the transport's description.
    Failed(String),
}

impl ReadEvent {
    /// What a read amounts to that came back without an error, with `count`
    /// bytes of which `byte` is the first: that byte, or nothing where the
    /// count is zero.
    pub fn from_read(count: usize, byte: u8) -> (event: ReadEvent)
        ensures
            event == (if count > 0 {
                ReadEvent::Byte(byte)
            } else {
                ReadEvent::Empty
            }),
    {
        if count > 0 {
            ReadEvent::Byte(byte)
        } else {
            ReadEvent::Empty
        }
    }

    /// What a read amounts to that came back with an error: a timeout where
    /// `timed_out` says so, else a failure of the transport with its
    /// description.
    pub fn from_failure(timed_out: bool, description: String) -> (event: ReadEvent)
        ensures
            event == (if timed_out {
                ReadEvent::TimedOut
            } else {
                ReadEvent::Failed(description)
            }),
    {
        if timed_out {
            ReadEvent::TimedOut
        } else {
            ReadEvent::Failed(description)
        }
    }
}

/// Where the reading of a response stands after one more read.
pub enum ReadStep {
    /// No line yet; holds the content gathered so far.
    Pending(Seq<u8>),
    /// A line is complete; holds its content.
    Line(Seq<u8>),
    /// The exchange failed.
    Fault(ArcusError),
}

/// Whether `byte` ends a response line.
pub open spec fn is_terminator(byte: u8) -> bool {
    byte == LINE_FEED || byte == CARRIAGE_RETURN
}

/// One step of reading a response: `gathered` is the content so far, `event`
/// the outcome of the next byte read.
pub open spec fn read_step(gathered: Seq<u8>, event: ReadEvent) -> ReadStep {
    match event {
        ReadEvent::Byte(byte) => if !is_terminator(byte) {
            ReadStep::Pending(gathered.push(byte))
        } else if gathered.len() == 0 {
            ReadStep::Pending(gathered)
        } else {
            ReadStep::Line(gathered)
        },
        ReadEvent::Empty => ReadStep::Pending(gathered),
        ReadEvent::TimedOut => ReadStep::Fault(ArcusError::Timeout),
        ReadEvent::Failed(description) => ReadStep::Fault(ArcusError::Io(description)),
    }
}

/// Where the reading of a response stands after the reads of `events`, in
/// order, from the content `gathered`: the first read that completes a line
/// or fails decides, and later reads belong to the next exchange.
pub open spec fn read_outcome(gathered: Seq<u8>, events: Seq<ReadEvent>) -> ReadStep
    decreases events.len(),
{
    if events.len() == 0 {
        ReadStep::Pending(gathered)
    } else {
        match read_step(gathered, events[0]) {
            ReadStep::Pending(content) => read_outcome(content, events.drop_first()),
            ReadStep::Line(content) => ReadStep::Line(content),
            ReadStep::Fault(e) => ReadStep::Fault(e),
        }
    }
}

/// The reads of a port that delivers `bytes` one by one and then falls
/// silent, so that the next read times out.
pub open spec fn stream_reads(bytes: Seq<u8>) -> Seq<ReadEvent> {
    Seq::new(bytes.len(), |i: int| ReadEvent::Byte(bytes[i])).push(ReadEvent::TimedOut)
}

/// `bytes` without the line terminators at its start.
pub open spec fn skip_terminators(bytes: Seq<u8>) -> Seq<u8>
    decreases bytes.len(),
{
    if bytes.len() > 0 && is_terminator(bytes[0]) {
        skip_terminators(bytes.drop_first())
    } else {
        bytes
    }
}

/// The bytes of `bytes` before its first line terminator, if it holds one.
pub open spec fn until_terminator(bytes: Seq<u8>) -> Option<Seq<u8>>
    decreases bytes.len(),
{
    if bytes.len() == 0 {
        None
    } else if is_terminator(bytes[0]) {
        Some(Seq::empty())
    } else {
        match until_terminator(bytes.drop_first()) {
            Some(rest) => Some(seq![bytes[0]] + rest),
            None => None,
        }
    }
}

/// The content of the response that a stream of `bytes` holds: what stands
/// between the terminators at its start and the first terminator after
/// them.  `None` where no terminator follows the content.
pub open spec fn response_line(bytes: Seq<u8>) -> Option<Seq<u8>> {
    until_terminator(skip_terminators(bytes))
}

proof fn lemma_stream_reads_step(bytes: Seq<u8>)
    requires
        bytes.len() > 0,
    ensures
        stream_reads(bytes)[0] == ReadEvent::Byte(bytes[0]),
        stream_reads(bytes).drop_first() == stream_reads(bytes.drop_first()),
{
    assert(stream_reads(bytes).drop_first() =~= stream_reads(bytes.drop_first()));
}

proof fn lemma_gathering(gathered: Seq<u8>, bytes: Seq<u8>)
    requires
        gathered.len() > 0,
    ensures
        read_outcome(gathered, stream_reads(bytes)) == match until_terminator(bytes) {
            Some(rest) => ReadStep::Line(gathered + rest),
            None => ReadStep::Fault(ArcusError::Timeout),
        },
    decreases bytes.len(),
{
    if bytes.len() == 0 {
        assert(stream_reads(bytes)[0] == ReadEvent::TimedOut);
    } else {
        lemma_stream_reads_step(bytes);
        if is_terminator(bytes[0]) {
            assert(gathered + Seq::<u8>::empty() =~= gathered);
        } else {
            lemma_gathering(gathered.push(bytes[0]), bytes.drop_first());
            match until_terminator(bytes.drop_first()) {
                Some(rest) => {
                    assert(gathered.push(bytes[0]) + rest =~= gathered + (seq![bytes[0]] + rest));
                },
                None => {},
            }
        }
    }
}

/// Reading from a port that delivers `bytes` and then falls silent gives the
/// content of the first response in the stream: terminators before the
/// content are skipped, and the first terminator after it ends the line.
/// Where no terminator follows the content, the reading times out.
pub proof fn lemma_stream_response(bytes: Seq<u8>)
    ensures
        read_outcome(Seq::empty(), stream_reads(bytes)) == match response_line(bytes) {
            Some(content) => ReadStep::Line(content),
            None => ReadStep::Fault(ArcusError::Timeout),
        },
    decreases bytes.len(),
{
    let nothing = Seq::<u8>::empty();
    if bytes.len() == 0 {
        assert(stream_reads(bytes)[0] == ReadEvent::TimedOut);
    } else {
        lemma_stream_reads_step(bytes);
        if is_terminator(bytes[0]) {
            lemma_stream_response(bytes.drop_first());
        } else {
            lemma_gathering(nothing.push(bytes[0]), bytes.drop_first());
            match until_terminator(bytes.drop_first()) {
                Some(rest) => {
                    assert(nothing.push(bytes[0]) + rest =~= seq![bytes[0]] + rest);
                },
                None => {},
            }
        }
    }
}

/// The bytes transmitted for a command are its text followed by exactly one
/// carriage return.
pub proof fn lemma_frame_ends_command(command: Seq<char>)
    ensures
        frame(command).len() == encode_utf8(command).len() + 1,
        frame(command).last() == CARRIAGE_RETURN,
        frame(command).drop_last() == encode_utf8(command),
{
    assert(frame(command).drop_last() =~= encode_utf8(command));
}

/// The text of the command that asks for the position of `axis`.
pub open spec fn position_query(axis: char) -> Seq<char> {
    seq!['P', axis]
}

/// The text of the command that moves `axis` to the absolute `position`.
pub open spec fn absolute_move(axis: char, position: int) -> Seq<char> {
    seq![axis] + decimal(position)
}

/// The text of the command that asks for the motion status.
pub open spec fn status_query() -> Seq<char> {
    seq!['M', 'S', 'T']
}

/// The text of the command that sets the high speed of `axis`.
pub open spec fn high_speed(axis: char, speed: int) -> Seq<char> {
    seq!['H', 'S', axis, '='] + decimal(speed)
}

/// The bytes transmitted for a command: its text in UTF-8, then one carriage
/// return.
pub open spec fn frame(command: Seq<char>) -> Seq<u8> {
    encode_utf8(command).push(CARRIAGE_RETURN)
}

/// The text that a response of these bytes decodes to, invalid UTF-8
/// replaced.
pub uninterp spec fn lossy_text(bytes: Seq<u8>) -> Seq<char>;

/// Decodes a response with `String::from_utf8_lossy`.  Trusted: the result
/// is a function of the bytes alone, and for valid UTF-8 it is the text that
/// the bytes encode.
#[verifier::external_body]
fn decode_lossy(bytes: &Vec<u8>) -> (text: String)
    ensures
        text@ == lossy_text(bytes@),
        valid_utf8(bytes@) ==> text@ == decode_utf8(bytes@),
{
    String::from_utf8_lossy(bytes).into_owned()
}

/// Whether every byte of `bytes` is ASCII.
pub open spec fn is_ascii_bytes(bytes: Seq<u8>) -> bool {
    forall|i: int| 0 <= i < bytes.len() ==> #[trigger] bytes[i] < 0x80
}

/// The text of ASCII bytes: one character for each byte.
pub open spec fn ascii_text(bytes: Seq<u8>) -> Seq<char> {
    Seq::new(bytes.len(), |i: int| bytes[i] as char)
}

/// A response of ASCII bytes is valid UTF-8, and its text has one character
/// for each byte.
pub proof fn lemma_ascii_response(bytes: Seq<u8>)
    requires
        is_ascii_bytes(bytes),
    ensures
        valid_utf8(bytes),
        decode_utf8(bytes) == ascii_text(bytes),
{
    let text = ascii_text(bytes);
    assert(is_ascii_chars(text));
    is_ascii_chars_encode_utf8(text);
    assert(encode_utf8(text) =~= bytes);
    encode_utf8_valid_utf8(text);
    encode_utf8_decode_utf8(text);
}

/// The bytes transmitted for a command of ASCII text are one byte for each
/// character, then the carriage return.
pub proof fn lemma_ascii_frame(command: Seq<char>)
    requires
        is_ascii_chars(command),
    ensures
        frame(command) == Seq::new(command.len(), |i: int| command[i] as u8).push(
            CARRIAGE_RETURN,
        ),
{
    is_ascii_chars_encode_utf8(command);
    assert(encode_utf8(command) =~= Seq::new(command.len(), |i: int| command[i] as u8));
}

/// The position that a response text reports, if it is a 32-bit signed
/// integer between optional white space.
pub open spec fn reported_position(text: Seq<char>) -> Option<i32> {
    parse_i32(trim(text))
}

/// Whether a status response reports motion: its value is odd.  A response
/// that is no integer counts as status 0.
pub open spec fn reports_motion(text: Seq<char>) -> bool {
    match parse_i32(trim(text)) {
        Some(status) => status % 2 != 0,
        None => false,
    }
}

/// A response that is the decimal text of a position reports that position.
pub proof fn lemma_position_read_back(position: i32)
    ensures
        reported_position(decimal(position as int)) == Some(position),
{
    lemma_decimal_is_trimmed(position as int);
    lemma_decimal_round_trip(position as int);
}

/// The protocol side of one controller connection.
pub struct ArcusController {
    settings: PortSettings,
    gathered: Vec<u8>,
}

impl ArcusController {
    /// The response content gathered since the last complete or failed
    /// response.
    pub closed spec fn gathered(&self) -> Seq<u8> {
        self.gathered@
    }

    /// The settings of the port behind this controller.
    pub closed spec fn settings(&self) -> PortSettings {
        self.settings
    }

    /// The settings with which the port named `port_name` is opened: the
    /// given baud rate and the fixed read timeout.
    pub fn port_settings(port_name: &str, baud_rate: u32) -> (settings: PortSettings)
        ensures
            settings.port_name@ == port_name@,
            settings.baud_rate == baud_rate,
            settings.timeout_ms == READ_TIMEOUT_MS,
    {
        PortSettings { port_name: String::from_str(port_name), baud_rate, timeout_ms: READ_TIMEOUT_MS }
    }

    /// Takes up the connection once the port was opened; `opened` is what
    /// opening it gave.
    pub fn connect(port_name: &str, baud_rate: u32, opened: Result<(), String>) -> (r: Result<
        ArcusController,
        ArcusError,
    >)
        ensures
            match opened {
                Ok(_) => {
                    &&& r matches Ok(controller)
                    &&& controller.gathered().len() == 0
                    &&& controller.settings().port_name@ == port_name@
                    &&& controller.settings().baud_rate == baud_rate
                    &&& controller.settings().timeout_ms == READ_TIMEOUT_MS
                },
                Err(description) => r matches Err(e) && e == ArcusError::Serial(description),
            },
    {
        match opened {
            Ok(_) => Ok(
                ArcusController {
                    settings: Self::port_settings(port_name, baud_rate),
                    gathered: Vec::new(),
                },
            ),
            Err(description) => Err(ArcusError::Serial(description)),
        }
    }

    /// The bytes to transmit for the command `cmd`.
    pub fn send_command(cmd: &str) -> (bytes: Vec<u8>)
        ensures
            bytes@ == frame(cmd@),
    {
        let mut bytes = cmd.as_bytes_vec();
        bytes.push(CARRIAGE_RETURN);
        bytes
    }

    /// What a finished transmission amounts to; `written` is what writing the
    /// bytes gave.
    pub fn sent(written: Result<(), String>) -> (r: Result<(), ArcusError>)
        ensures
            match written {
                Ok(_) => r is Ok,
                Err(description) => r matches Err(e) && e == ArcusError::Io(description),
            },
    {
        match written {
            Ok(_) => Ok(()),
            Err(description) => Err(ArcusError::Io(description)),
        }
    }

    /// Takes the outcome of one byte read and says where the response
    /// stands: `None` while more bytes are needed, else the decoded line or
    /// the failure.
    pub fn read_response(&mut self, event: ReadEvent) -> (r: Option<Result<String, ArcusError>>)
        ensures
            final(self).settings() == old(self).settings(),
            match read_step(old(self).gathered(), event) {
                ReadStep::Pending(content) => r is None && final(self).gathered() == content,
                ReadStep::Line(content) => {
                    &&& final(self).gathered().len() == 0
                    &&& r matches Some(Ok(text))
                    &&& text@ == lossy_text(content)
                    &&& valid_utf8(content) ==> text@ == decode_utf8(content)
                },
                ReadStep::Fault(e) => {
                    &&& final(self).gathered().len() == 0
                    &&& r == Some(Err::<String, ArcusError>(e))
                },
            },
    {
        match event {
            ReadEvent::Byte(byte) => {
                if byte != LINE_FEED && byte != CARRIAGE_RETURN {
                    self.gathered.push(byte);
                    None
                } else if self.gathered.len() == 0 {
                    None
                } else {
                    let text = decode_lossy(&self.gathered);
                    self.gathered.clear();
                    Some(Ok(text))
                }
            },
            ReadEvent::Empty => None,
            ReadEvent::TimedOut => {
                self.gathered.clear();
                Some(Err(ArcusError::Timeout))
            },
            ReadEvent::Failed(description) => {
                self.gathered.clear();
                Some(Err(ArcusError::Io(description)))
            },
        }
    }

    /// Starts a position query of `axis`: forgets any unfinished response
    /// and gives the bytes to transmit.
    pub fn get_position(&mut self, axis: char) -> (bytes: Vec<u8>)
        ensures
            bytes@ == frame(position_query(axis)),
            final(self).gathered().len() == 0,
            final(self).settings() == old(self).settings(),
    {
        self.gathered.clear();
        let mut cmd = String::from_str("P");
        proof {
            reveal_strlit("P");
        }
        cmd.push(axis);
        assert(cmd@ == position_query(axis));
        Self::send_command(cmd.as_str())
    }

    /// The position that the response `text` reports.
    pub fn position(text: String) -> (r: Result<i32, ArcusError>)
        ensures
            match reported_position(text@) {
                Some(position) => r == Ok::<i32, ArcusError>(position),
                None => r == Err::<i32, ArcusError>(ArcusError::InvalidResponse(text)),
            },
    {
        match parse_trimmed(text.as_str()) {
            Some(position) => Ok(position),
            None => Err(ArcusError::InvalidResponse(text)),
        }
    }

    /// Takes the outcome of one byte read during a position query: `None`
    /// while more bytes are needed, else the position that the response
    /// reports, or the failure.  A response that reports no position fails
    /// as invalid, with the response as it was received.
    pub fn read_position(&mut self, event: ReadEvent) -> (r: Option<Result<i32, ArcusError>>)
        ensures
            final(self).settings() == old(self).settings(),
            match read_step(old(self).gathered(), event) {
                ReadStep::Pending(content) => r is None && final(self).gathered() == content,
                ReadStep::Line(content) => {
                    &&& final(self).gathered().len() == 0
                    &&& valid_utf8(content) ==> lossy_text(content) == decode_utf8(content)
                    &&& match reported_position(lossy_text(content)) {
                        Some(position) => r == Some(Ok::<i32, ArcusError>(position)),
                        None => r matches Some(Err(ArcusError::InvalidResponse(raw))) && raw@
                            == lossy_text(content),
                    }
                },
                ReadStep::Fault(e) => {
                    &&& final(self).gathered().len() == 0
                    &&& r == Some(Err::<i32, ArcusError>(e))
                },
            },
    {
        match self.read_response(event) {
            None => None,
            Some(Ok(text)) => Some(Self::position(text)),
            Some(Err(e)) => Some(Err(e)),
        }
    }

    /// The bytes to transmit to move `axis` to the absolute `position`.  The
    /// controller sends no response, and the move has only begun when the
    /// bytes are out.
    pub fn move_to(&self, axis: char, position: i32) -> (bytes: Vec<u8>)
        ensures
            bytes@ == frame(absolute_move(axis, position as int)),
    {
        let mut cmd = String::new();
        cmd.push(axis);
        push_decimal(&mut cmd, position as i64);
        assert(cmd@ == absolute_move(axis, position as int));
        Self::send_command(cmd.as_str())
    }

    /// Starts a query of the motion status: forgets any unfinished response
    /// and gives the bytes to transmit.
    pub fn is_moving(&mut self) -> (bytes: Vec<u8>)
        ensures
            bytes@ == frame(status_query()),
            final(self).gathered().len() == 0,
            final(self).settings() == old(self).settings(),
    {
        self.gathered.clear();
        proof {
            reveal_strlit("MST");
        }
        assert("MST"@ == status_query());
        Self::send_command("MST")
    }

    /// Whether the status response `text` reports motion.
    pub fn moving(text: &str) -> (r: bool)
        ensures
            r == reports_motion(text@),
    {
        match parse_trimmed(text) {
            Some(status) => {
                assert((status & 1 != 0) == (status % 2 != 0)) by (bit_vector);
                (status & 1) != 0
            },
            None => false,
        }
    }

    /// Takes the outcome of one byte read during a status query: `None`
    /// while more bytes are needed, else whether the response reports
    /// motion, or the failure.  A response that is no integer reports none.
    pub fn read_moving(&mut self, event: ReadEvent) -> (r: Option<Result<bool, ArcusError>>)
        ensures
            final(self).settings() == old(self).settings(),
            match read_step(old(self).gathered(), event) {
                ReadStep::Pending(content) => r is None && final(self).gathered() == content,
                ReadStep::Line(content) => {
                    &&& final(self).gathered().len() == 0
                    &&& valid_utf8(content) ==> lossy_text(content) == decode_utf8(content)
                    &&& r == Some(Ok::<bool, ArcusError>(reports_motion(lossy_text(content))))
                },
                ReadStep::Fault(e) => {
                    &&& final(self).gathered().len() == 0
                    &&& r == Some(Err::<bool, ArcusError>(e))
                },
            },
    {
        match self.read_response(event) {
            None => None,
            Some(Ok(text)) => Some(Ok(Self::moving(text.as_str()))),
            Some(Err(e)) => Some(Err(e)),
        }
    }

    /// The bytes to transmit to set the high speed of `axis`.  The controller
    /// sends no response.
    pub fn set_high_speed(&self, axis: char, speed: i32) -> (bytes: Vec<u8>)
        ensures
            bytes@ == frame(high_speed(axis, speed as int)),
    {
        let mut cmd = String::from_str("HS");
        proof {
            reveal_strlit("HS");
        }
        cmd.push(axis);
        cmd.push('=');
        push_decimal(&mut cmd, speed as i64);
        assert(cmd@ == high_speed(axis, speed as int));
        Self::send_command(cmd.as_str())
    }
}

} // verus!
