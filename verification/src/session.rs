//! The per-connection session: which reply each line earns, how the envelope
//! advances, and when the lines are message data rather than commands.
//!
//! The session performs no I/O. Its caller reads a line, hands it over, and
//! carries out the action that comes back.

use crate::extract::{
    capture_after, capture_lines, capture_start, end_marker, extracted, message_of, Capture,
    CaptureView, ExtractedMessage, MessageView,
};
use crate::text::{
    chars_of, equals_folded, has_prefix, is_folded, slice_chars, starts_with, strip_line_end,
    strip_line_end_len, trim_end,
};
use vstd::prelude::*;

verus! {

/// How far the envelope of the current transaction has come.
#[derive(Clone, Copy, PartialEq, Eq, Structural, Debug)]
pub enum EnvelopeState {
    /// No sender yet.
    Initial,
    /// A sender was named.
    SenderSet,
    /// A sender and a recipient were named.
    RecipientSet,
}

/// What the session takes the next line for.
#[derive(Clone, Copy, PartialEq, Eq, Structural, Debug)]
pub enum Phase {
    /// A command.
    Command,
    /// A line of message data.
    Data,
    /// Nothing: the session has ended.
    Closed,
}

/// The commands that the session tells apart.
#[derive(Clone, Copy, PartialEq, Eq, Structural, Debug)]
pub enum Command {
    Hello,
    Mail,
    Rcpt,
    Data,
    Quit,
    Unknown,
}

/// The replies that the session gives.
#[derive(Clone, Copy, PartialEq, Eq, Structural, Debug)]
pub enum Reply {
    /// The banner sent when a connection is accepted.
    Ready,
    Hello,
    Okay,
    MailFirst,
    NeedMailAndRcpt,
    StartData,
    Bye,
    NotSupported,
    Accepted,
}

impl Reply {
    /// The reply code.
    pub open spec fn spec_code(self) -> int {
        match self {
            Reply::Ready => 220,
            Reply::Hello => 250,
            Reply::Okay => 250,
            Reply::MailFirst => 503,
            Reply::NeedMailAndRcpt => 503,
            Reply::StartData => 354,
            Reply::Bye => 221,
            Reply::NotSupported => 502,
            Reply::Accepted => 250,
        }
    }

    /// The reply as it goes over the wire, line terminator included.
    pub open spec fn spec_wire(self) -> Seq<char> {
        match self {
            Reply::Ready => "220 smtp2tg ready\r\n"@,
            Reply::Hello => "250 smtp2tg\r\n"@,
            Reply::Okay => "250 OK\r\n"@,
            Reply::MailFirst => "503 MAIL first\r\n"@,
            Reply::NeedMailAndRcpt => "503 Need MAIL and RCPT\r\n"@,
            Reply::StartData => "354 End with <CR><LF>.<CR><LF>\r\n"@,
            Reply::Bye => "221 Bye\r\n"@,
            Reply::NotSupported => "502 Command not supported\r\n"@,
            Reply::Accepted => "250 Message accepted\r\n"@,
        }
    }

    /// The reply code.
    pub fn code(self) -> (c: u16)
        ensures
            c == self.spec_code(),
    {
        match self {
            Reply::Ready => 220,
            Reply::Hello => 250,
            Reply::Okay => 250,
            Reply::MailFirst => 503,
            Reply::NeedMailAndRcpt => 503,
            Reply::StartData => 354,
            Reply::Bye => 221,
            Reply::NotSupported => 502,
            Reply::Accepted => 250,
        }
    }

    /// The reply as it goes over the wire, line terminator included.
    pub fn wire(self) -> (s: &'static str)
        ensures
            s@ == self.spec_wire(),
    {
        match self {
            Reply::Ready => "220 smtp2tg ready\r\n",
            Reply::Hello => "250 smtp2tg\r\n",
            Reply::Okay => "250 OK\r\n",
            Reply::MailFirst => "503 MAIL first\r\n",
            Reply::NeedMailAndRcpt => "503 Need MAIL and RCPT\r\n",
            Reply::StartData => "354 End with <CR><LF>.<CR><LF>\r\n",
            Reply::Bye => "221 Bye\r\n",
            Reply::NotSupported => "502 Command not supported\r\n",
            Reply::Accepted => "250 Message accepted\r\n",
        }
    }
}

/// The command that the line `cmd` is, its line terminators already dropped.
/// The greeting and envelope commands are recognised by their beginning, in
/// upper case only; `DATA` and `QUIT` must be the whole line, in any case.
pub open spec fn command_of(cmd: Seq<char>) -> Command {
    if starts_with(cmd, "EHLO"@) || starts_with(cmd, "HELO"@) {
        Command::Hello
    } else if starts_with(cmd, "MAIL FROM:"@) {
        Command::Mail
    } else if starts_with(cmd, "RCPT TO:"@) {
        Command::Rcpt
    } else if equals_folded(cmd, "data"@) {
        Command::Data
    } else if equals_folded(cmd, "quit"@) {
        Command::Quit
    } else {
        Command::Unknown
    }
}

/// The envelope after command `c` came in state `e`.
pub open spec fn envelope_after(e: EnvelopeState, c: Command) -> EnvelopeState {
    match c {
        Command::Mail => EnvelopeState::SenderSet,
        Command::Rcpt => if e == EnvelopeState::Initial {
            e
        } else {
            EnvelopeState::RecipientSet
        },
        _ => e,
    }
}

/// The reply to command `c` in state `e`.
pub open spec fn reply_to(e: EnvelopeState, c: Command) -> Reply {
    match c {
        Command::Hello => Reply::Hello,
        Command::Mail => Reply::Okay,
        Command::Rcpt => if e == EnvelopeState::Initial {
            Reply::MailFirst
        } else {
            Reply::Okay
        },
        Command::Data => if e == EnvelopeState::RecipientSet {
            Reply::StartData
        } else {
            Reply::NeedMailAndRcpt
        },
        Command::Quit => Reply::Bye,
        Command::Unknown => Reply::NotSupported,
    }
}

/// The phase after command `c` came in state `e` during the command phase.
pub open spec fn phase_after(e: EnvelopeState, c: Command) -> Phase {
    match c {
        Command::Data => if e == EnvelopeState::RecipientSet {
            Phase::Data
        } else {
            Phase::Command
        },
        Command::Quit => Phase::Closed,
        _ => Phase::Command,
    }
}

/// What the caller is to do after handing over a line or the end of the
/// stream.
pub enum ActionView {
    /// Write the reply and read on.
    Send(Reply),
    /// Write the reply, flush, and read on.
    SendAndFlush(Reply),
    /// Write the reply and close the connection.
    SendAndClose(Reply),
    /// Close the connection without a reply.
    Close,
    /// Write nothing and read on.
    Read,
    /// Hand the message to the notifier; whatever comes of that, write
    /// `Reply::Accepted` and read on.
    Deliver(MessageView),
}

/// The action on command `c` in state `e` during the command phase.
pub open spec fn action_on(e: EnvelopeState, c: Command) -> ActionView {
    match phase_after(e, c) {
        Phase::Command => ActionView::Send(reply_to(e, c)),
        Phase::Data => ActionView::SendAndFlush(reply_to(e, c)),
        Phase::Closed => ActionView::SendAndClose(reply_to(e, c)),
    }
}

/// A session as the contracts see it.
pub struct SessionView {
    pub envelope: EnvelopeState,
    pub phase: Phase,
    pub capture: CaptureView,
}

/// The session of a connection that was just accepted.
pub open spec fn session_start() -> SessionView {
    SessionView {
        envelope: EnvelopeState::Initial,
        phase: Phase::Command,
        capture: capture_start(),
    }
}

/// The session after the raw line `line`. During the command phase the line
/// is a command; data capture begins with nothing gathered. During data
/// capture the line is gathered, or, being the end marker, ends the capture
/// and brings the command phase back with the envelope as it was. A session
/// that has ended stays as it is.
pub open spec fn session_after_line(s: SessionView, line: Seq<char>) -> SessionView {
    match s.phase {
        Phase::Command => {
            let c = command_of(strip_line_end(line));
            SessionView {
                envelope: envelope_after(s.envelope, c),
                phase: phase_after(s.envelope, c),
                capture: if phase_after(s.envelope, c) == Phase::Data {
                    capture_start()
                } else {
                    s.capture
                },
            }
        },
        Phase::Data => {
            let t = trim_end(line);
            if t == end_marker() {
                SessionView { phase: Phase::Command, capture: capture_start(), ..s }
            } else {
                SessionView { capture: capture_after(s.capture, t), ..s }
            }
        },
        Phase::Closed => s,
    }
}

/// The action that the raw line `line` calls for.
pub open spec fn action_for_line(s: SessionView, line: Seq<char>) -> ActionView {
    match s.phase {
        Phase::Command => action_on(s.envelope, command_of(strip_line_end(line))),
        Phase::Data => if trim_end(line) == end_marker() {
            ActionView::Deliver(extracted(s.capture))
        } else {
            ActionView::Read
        },
        Phase::Closed => ActionView::Close,
    }
}

/// The session after the stream has ended. During data capture the end of
/// the stream ends the data block; otherwise it ends the session.
pub open spec fn session_after_end(s: SessionView) -> SessionView {
    match s.phase {
        Phase::Data => SessionView { phase: Phase::Command, capture: capture_start(), ..s },
        _ => SessionView { phase: Phase::Closed, ..s },
    }
}

/// The action that the end of the stream calls for.
pub open spec fn action_for_end(s: SessionView) -> ActionView {
    match s.phase {
        Phase::Data => ActionView::Deliver(extracted(s.capture)),
        _ => ActionView::Close,
    }
}

/// What the caller is to do after handing over a line or the end of the
/// stream.
#[derive(Clone, PartialEq, Eq, Debug)]
pub enum Action {
    /// Write the reply and read on.
    Send(Reply),
    /// Write the reply, flush, and read on.
    SendAndFlush(Reply),
    /// Write the reply and close the connection.
    SendAndClose(Reply),
    /// Close the connection without a reply.
    Close,
    /// Write nothing and read on.
    Read,
    /// Hand the message to the notifier; whatever comes of that, write
    /// `Reply::Accepted` and read on.
    Deliver(ExtractedMessage),
}

impl View for Action {
    type V = ActionView;

    open spec fn view(&self) -> ActionView {
        match self {
            Action::Send(r) => ActionView::Send(*r),
            Action::SendAndFlush(r) => ActionView::SendAndFlush(*r),
            Action::SendAndClose(r) => ActionView::SendAndClose(*r),
            Action::Close => ActionView::Close,
            Action::Read => ActionView::Read,
            Action::Deliver(m) => ActionView::Deliver(m@),
        }
    }
}

/// Tells which command the line `cmd` is, its line terminators already
/// dropped.
pub fn classify(cmd: &Vec<char>) -> (c: Command)
    ensures
        c == command_of(cmd@),
{
    if has_prefix(cmd, "EHLO") || has_prefix(cmd, "HELO") {
        Command::Hello
    } else if has_prefix(cmd, "MAIL FROM:") {
        Command::Mail
    } else if has_prefix(cmd, "RCPT TO:") {
        Command::Rcpt
    } else if is_folded(cmd, "data") {
        Command::Data
    } else if is_folded(cmd, "quit") {
        Command::Quit
    } else {
        Command::Unknown
    }
}

/// The envelope, the phase and the action after command `c` came in state
/// `e` during the command phase.
pub fn respond(e: EnvelopeState, c: Command) -> (r: (EnvelopeState, Phase, Reply))
    ensures
        r.0 == envelope_after(e, c),
        r.1 == phase_after(e, c),
        r.2 == reply_to(e, c),
{
    match c {
        Command::Hello => (e, Phase::Command, Reply::Hello),
        Command::Mail => (EnvelopeState::SenderSet, Phase::Command, Reply::Okay),
        Command::Rcpt => match e {
            EnvelopeState::Initial => (e, Phase::Command, Reply::MailFirst),
            _ => (EnvelopeState::RecipientSet, Phase::Command, Reply::Okay),
        },
        Command::Data => match e {
            EnvelopeState::RecipientSet => (e, Phase::Data, Reply::StartData),
            _ => (e, Phase::Command, Reply::NeedMailAndRcpt),
        },
        Command::Quit => (e, Phase::Closed, Reply::Bye),
        Command::Unknown => (e, Phase::Command, Reply::NotSupported),
    }
}

/// The state of one connection.
#[derive(Clone, PartialEq, Eq, Debug)]
pub struct Session {
    pub envelope: EnvelopeState,
    pub phase: Phase,
    pub capture: Capture,
}

impl View for Session {
    type V = SessionView;

    open spec fn view(&self) -> SessionView {
        SessionView { envelope: self.envelope, phase: self.phase, capture: self.capture@ }
    }
}

impl Session {
    /// The session of a connection that was just accepted, and the banner to
    /// send at once.
    pub fn new() -> (r: (Session, Reply))
        ensures
            r.0@ == session_start(),
            r.1 == Reply::Ready,
    {
        (
            Session {
                envelope: EnvelopeState::Initial,
                phase: Phase::Command,
                capture: Capture::new(),
            },
            Reply::Ready,
        )
    }

    /// Takes one raw line as it was read, line terminator included, and says
    /// what to do next.
    pub fn on_line(&mut self, line: &str) -> (action: Action)
        ensures
            final(self)@ == session_after_line(old(self)@, line@),
            action@ == action_for_line(old(self)@, line@),
    {
        let v = chars_of(line);
        match self.phase {
            Phase::Closed => Action::Close,
            Phase::Command => {
                let n = strip_line_end_len(&v);
                let cmd = slice_chars(&v, 0, n);
                assert(cmd@ == strip_line_end(v@)) by {
                    assert(v@.subrange(0, n as int) == v@.take(n as int));
                }
                let c = classify(&cmd);
                let (envelope, phase, reply) = respond(self.envelope, c);
                self.envelope = envelope;
                self.phase = phase;
                match phase {
                    Phase::Command => Action::Send(reply),
                    Phase::Data => {
                        self.capture = Capture::new();
                        Action::SendAndFlush(reply)
                    },
                    Phase::Closed => Action::SendAndClose(reply),
                }
            },
            Phase::Data => {
                let ended = self.capture.feed(&v);
                if ended {
                    let m = self.capture.finish();
                    self.capture = Capture::new();
                    self.phase = Phase::Command;
                    Action::Deliver(m)
                } else {
                    Action::Read
                }
            },
        }
    }

    /// Takes the end of the stream and says what to do next.
    pub fn on_end_of_stream(&mut self) -> (action: Action)
        ensures
            final(self)@ == session_after_end(old(self)@),
            action@ == action_for_end(old(self)@),
    {
        match self.phase {
            Phase::Data => {
                let m = self.capture.finish();
                self.capture = Capture::new();
                self.phase = Phase::Command;
                Action::Deliver(m)
            },
            _ => {
                self.phase = Phase::Closed;
                Action::Close
            },
        }
    }
}

/// The session after the raw lines `lines`, taken in order from state `s`.
pub open spec fn session_run(s: SessionView, lines: Seq<Seq<char>>) -> SessionView
    decreases lines.len(),
{
    if lines.len() == 0 {
        s
    } else {
        session_after_line(session_run(s, lines.drop_last()), lines.last())
    }
}

/// The session after the raw lines `lines`, taken in order by a session that
/// was just accepted.
pub open spec fn session_after_lines(lines: Seq<Seq<char>>) -> SessionView {
    session_run(session_start(), lines)
}

/// The command that the raw line `line` is when it is taken for a command.
pub open spec fn command_in(line: Seq<char>) -> Command {
    command_of(strip_line_end(line))
}

/// A line that begins with `EHLO` or `HELO` is the greeting command.
pub proof fn lemma_greeting_is_hello(cmd: Seq<char>)
    requires
        starts_with(cmd, "EHLO"@) || starts_with(cmd, "HELO"@),
    ensures
        command_of(cmd) == Command::Hello,
{
}

/// A line that begins with `MAIL FROM:` is the sender command.
pub proof fn lemma_mail_from_is_mail(cmd: Seq<char>)
    requires
        starts_with(cmd, "MAIL FROM:"@),
    ensures
        command_of(cmd) == Command::Mail,
{
    reveal_strlit("EHLO");
    reveal_strlit("HELO");
    reveal_strlit("MAIL FROM:");
    assert(cmd.take(10)[0] == 'M');
    assert(cmd.take(4)[0] == 'M');
}

/// A line that begins with `RCPT TO:` is the recipient command.
pub proof fn lemma_rcpt_to_is_rcpt(cmd: Seq<char>)
    requires
        starts_with(cmd, "RCPT TO:"@),
    ensures
        command_of(cmd) == Command::Rcpt,
{
    reveal_strlit("EHLO");
    reveal_strlit("HELO");
    reveal_strlit("MAIL FROM:");
    reveal_strlit("RCPT TO:");
    assert(cmd.take(8)[0] == 'R');
    assert(cmd.take(4)[0] == 'R');
    if cmd.len() >= 10 {
        assert(cmd.take(10)[0] == 'R');
    }
}

/// A line that is `DATA` in any mix of upper and lower case is the data
/// command.
pub proof fn lemma_data_is_data(cmd: Seq<char>)
    requires
        equals_folded(cmd, "data"@),
    ensures
        command_of(cmd) == Command::Data,
{
    reveal_strlit("EHLO");
    reveal_strlit("HELO");
    reveal_strlit("MAIL FROM:");
    reveal_strlit("RCPT TO:");
    reveal_strlit("data");
    assert(crate::text::folds_to(cmd[0], "data"@[0]));
    assert(cmd.take(4)[0] == cmd[0]);
}

/// A line that is `QUIT` in any mix of upper and lower case is the quit
/// command.
pub proof fn lemma_quit_is_quit(cmd: Seq<char>)
    requires
        equals_folded(cmd, "quit"@),
    ensures
        command_of(cmd) == Command::Quit,
{
    reveal_strlit("EHLO");
    reveal_strlit("HELO");
    reveal_strlit("MAIL FROM:");
    reveal_strlit("RCPT TO:");
    reveal_strlit("data");
    reveal_strlit("quit");
    assert(crate::text::folds_to(cmd[0], "quit"@[0]));
    assert(cmd.take(4)[0] == cmd[0]);
}

/// During the command phase a greeting earns a `250` reply and leaves the
/// session as it was, whatever the envelope.
pub proof fn lemma_greeting_keeps_envelope(s: SessionView, line: Seq<char>)
    requires
        s.phase == Phase::Command,
        starts_with(strip_line_end(line), "EHLO"@) || starts_with(strip_line_end(line), "HELO"@),
    ensures
        action_for_line(s, line) == ActionView::Send(Reply::Hello),
        Reply::Hello.spec_code() == 250,
        session_after_line(s, line) == s,
{
    lemma_greeting_is_hello(strip_line_end(line));
}

/// During the command phase a recipient command earns `503` and changes
/// nothing while no sender is set; once a sender is set it earns `250` and
/// the envelope has its recipient.
pub proof fn lemma_rcpt_follows_mail(s: SessionView, line: Seq<char>)
    requires
        s.phase == Phase::Command,
        starts_with(strip_line_end(line), "RCPT TO:"@),
    ensures
        s.envelope == EnvelopeState::Initial ==> action_for_line(s, line) == ActionView::Send(
            Reply::MailFirst,
        ) && session_after_line(s, line) == s,
        s.envelope != EnvelopeState::Initial ==> action_for_line(s, line) == ActionView::Send(
            Reply::Okay,
        ) && session_after_line(s, line) == (SessionView {
            envelope: EnvelopeState::RecipientSet,
            ..s
        }),
        Reply::MailFirst.spec_code() == 503,
        Reply::Okay.spec_code() == 250,
{
    lemma_rcpt_to_is_rcpt(strip_line_end(line));
}

/// During the command phase a sender command earns `250` and sets the
/// sender, whatever the envelope was.
pub proof fn lemma_mail_sets_sender(s: SessionView, line: Seq<char>)
    requires
        s.phase == Phase::Command,
        starts_with(strip_line_end(line), "MAIL FROM:"@),
    ensures
        action_for_line(s, line) == ActionView::Send(Reply::Okay),
        session_after_line(s, line) == (SessionView { envelope: EnvelopeState::SenderSet, ..s }),
{
    lemma_mail_from_is_mail(strip_line_end(line));
}

/// During the command phase a data command earns `503` and changes nothing
/// unless both sender and recipient are set; then it earns `354` and data
/// capture begins.
pub proof fn lemma_data_needs_envelope(s: SessionView, line: Seq<char>)
    requires
        s.phase == Phase::Command,
        equals_folded(strip_line_end(line), "data"@),
    ensures
        s.envelope != EnvelopeState::RecipientSet ==> action_for_line(s, line) == ActionView::Send(
            Reply::NeedMailAndRcpt,
        ) && session_after_line(s, line) == s,
        s.envelope == EnvelopeState::RecipientSet ==> action_for_line(s, line)
            == ActionView::SendAndFlush(Reply::StartData) && session_after_line(s, line) == (
        SessionView { phase: Phase::Data, capture: capture_start(), ..s }),
        Reply::NeedMailAndRcpt.spec_code() == 503,
        Reply::StartData.spec_code() == 354,
{
    lemma_data_is_data(strip_line_end(line));
}

/// During the command phase a quit command earns `221 Bye` and ends the
/// session, whatever the envelope; data capture is not entered.
pub proof fn lemma_quit_ends_session(s: SessionView, line: Seq<char>)
    requires
        s.phase == Phase::Command,
        equals_folded(strip_line_end(line), "quit"@),
    ensures
        action_for_line(s, line) == ActionView::SendAndClose(Reply::Bye),
        Reply::Bye.spec_code() == 221,
        Reply::Bye.spec_wire() == "221 Bye\r\n"@,
        session_after_line(s, line) == (SessionView { phase: Phase::Closed, ..s }),
{
    lemma_quit_is_quit(strip_line_end(line));
}

/// The end of the stream during the command phase ends the session without
/// a reply, and a session that has ended stays so: every later line or end
/// of stream changes nothing and earns no reply.
pub proof fn lemma_end_of_stream_closes(s: SessionView, line: Seq<char>)
    requires
        s.phase == Phase::Command,
    ensures
        action_for_end(s) == ActionView::Close,
        session_after_end(s) == (SessionView { phase: Phase::Closed, ..s }),
        session_after_line(session_after_end(s), line) == session_after_end(s),
        action_for_line(session_after_end(s), line) == ActionView::Close,
        session_after_end(session_after_end(s)) == session_after_end(s),
        action_for_end(session_after_end(s)) == ActionView::Close,
{
}

/// Data capture is entered only with sender and recipient set.
pub proof fn lemma_data_phase_has_envelope(lines: Seq<Seq<char>>)
    ensures
        session_after_lines(lines).phase == Phase::Data ==> session_after_lines(lines).envelope
            == EnvelopeState::RecipientSet,
    decreases lines.len(),
{
    if lines.len() > 0 {
        lemma_data_phase_has_envelope(lines.drop_last());
    }
}

/// Until a sender command has come, the envelope is in its initial state and
/// no data is captured: every line was taken for a command.
pub proof fn lemma_initial_before_mail(lines: Seq<Seq<char>>)
    requires
        forall|i: int| 0 <= i < lines.len() ==> command_in(#[trigger] lines[i]) != Command::Mail,
    ensures
        session_after_lines(lines).envelope == EnvelopeState::Initial,
        session_after_lines(lines).phase != Phase::Data,
    decreases lines.len(),
{
    if lines.len() > 0 {
        let front = lines.drop_last();
        assert forall|i: int| 0 <= i < front.len() implies command_in(#[trigger] front[i])
            != Command::Mail by {
            assert(front[i] == lines[i]);
        }
        lemma_initial_before_mail(front);
        assert(command_in(lines[lines.len() - 1]) != Command::Mail);
    }
}

/// Until a recipient command has come, the envelope has no recipient and no
/// data is captured: every line was taken for a command.
pub proof fn lemma_no_recipient_before_rcpt(lines: Seq<Seq<char>>)
    requires
        forall|i: int| 0 <= i < lines.len() ==> command_in(#[trigger] lines[i]) != Command::Rcpt,
    ensures
        session_after_lines(lines).envelope != EnvelopeState::RecipientSet,
        session_after_lines(lines).phase != Phase::Data,
    decreases lines.len(),
{
    if lines.len() > 0 {
        let front = lines.drop_last();
        assert forall|i: int| 0 <= i < front.len() implies command_in(#[trigger] front[i])
            != Command::Rcpt by {
            assert(front[i] == lines[i]);
        }
        lemma_no_recipient_before_rcpt(front);
        assert(command_in(lines[lines.len() - 1]) != Command::Rcpt);
    }
}

/// Once a sender is set the envelope never returns to its initial state.
pub proof fn lemma_sender_stays_set(s: SessionView, line: Seq<char>)
    requires
        s.envelope != EnvelopeState::Initial,
    ensures
        session_after_line(s, line).envelope != EnvelopeState::Initial,
        session_after_end(s).envelope != EnvelopeState::Initial,
{
}

/// Once a sender is set the envelope is never in its initial state again,
/// however many lines follow.
pub proof fn lemma_sender_stays_set_for_good(s: SessionView, lines: Seq<Seq<char>>)
    requires
        s.envelope != EnvelopeState::Initial,
    ensures
        session_run(s, lines).envelope != EnvelopeState::Initial,
    decreases lines.len(),
{
    if lines.len() > 0 {
        lemma_sender_stays_set_for_good(s, lines.drop_last());
        lemma_sender_stays_set(session_run(s, lines.drop_last()), lines.last());
    }
}

/// A recipient command before any sender command earns `503`: on a
/// connection that is still open and has seen no sender command, `RCPT TO:`
/// is answered with `503 MAIL first` and changes nothing.
pub proof fn lemma_rcpt_before_any_mail(lines: Seq<Seq<char>>, line: Seq<char>)
    requires
        forall|i: int| 0 <= i < lines.len() ==> command_in(#[trigger] lines[i]) != Command::Mail,
        session_after_lines(lines).phase != Phase::Closed,
        starts_with(strip_line_end(line), "RCPT TO:"@),
    ensures
        action_for_line(session_after_lines(lines), line) == ActionView::Send(Reply::MailFirst),
        session_after_line(session_after_lines(lines), line) == session_after_lines(lines),
        Reply::MailFirst.spec_code() == 503,
{
    lemma_initial_before_mail(lines);
    lemma_rcpt_follows_mail(session_after_lines(lines), line);
}

/// A data command before both a sender and a recipient command earns `503`:
/// on a connection that is still open and has seen no sender command, or no
/// recipient command, `DATA` is answered with `503 Need MAIL and RCPT` and
/// changes nothing.
pub proof fn lemma_data_before_envelope(lines: Seq<Seq<char>>, line: Seq<char>)
    requires
        (forall|i: int| 0 <= i < lines.len() ==> command_in(#[trigger] lines[i]) != Command::Mail)
            || (forall|i: int|
            0 <= i < lines.len() ==> command_in(#[trigger] lines[i]) != Command::Rcpt),
        session_after_lines(lines).phase != Phase::Closed,
        equals_folded(strip_line_end(line), "data"@),
    ensures
        action_for_line(session_after_lines(lines), line) == ActionView::Send(
            Reply::NeedMailAndRcpt,
        ),
        session_after_line(session_after_lines(lines), line) == session_after_lines(lines),
        Reply::NeedMailAndRcpt.spec_code() == 503,
{
    if forall|i: int| 0 <= i < lines.len() ==> command_in(#[trigger] lines[i]) != Command::Mail {
        lemma_initial_before_mail(lines);
    } else {
        lemma_no_recipient_before_rcpt(lines);
    }
    lemma_data_needs_envelope(session_after_lines(lines), line);
}

/// Data capture gathers what the extractor gathers: after the lines `raw`
/// of a data block, none of them the end marker, the session holds what the
/// extractor makes of them; the end marker `last`, or the end of the stream,
/// then delivers the message of the block.
pub proof fn lemma_capture_matches_extractor(s: SessionView, raw: Seq<Seq<char>>, last: Seq<char>)
    requires
        s.phase == Phase::Data,
        s.capture == capture_start(),
        forall|i: int| 0 <= i < raw.len() ==> trim_end(#[trigger] raw[i]) != end_marker(),
        trim_end(last) == end_marker(),
    ensures
        session_run(s, raw) == (SessionView { capture: capture_lines(raw).0, ..s }),
        !capture_lines(raw).1,
        action_for_line(session_run(s, raw), last) == ActionView::Deliver(
            message_of(raw.push(last)),
        ),
        action_for_end(session_run(s, raw)) == ActionView::Deliver(message_of(raw)),
        session_after_line(session_run(s, raw), last) == (SessionView {
            phase: Phase::Command,
            ..s
        }),
    decreases raw.len(),
{
    if raw.len() > 0 {
        let front = raw.drop_last();
        assert forall|i: int| 0 <= i < front.len() implies trim_end(#[trigger] front[i])
            != end_marker() by {
            assert(front[i] == raw[i]);
        }
        lemma_capture_matches_extractor(s, front, last);
        assert(trim_end(raw[raw.len() - 1]) != end_marker());
    }
    assert(raw.push(last).drop_last() =~= raw);
}

/// Every reply begins with its three-digit code and a space, and ends with
/// carriage return and line feed.
pub proof fn lemma_wire_carries_code(r: Reply)
    ensures
        r.spec_wire().len() >= 6,
        r.spec_wire()[0] as int - '0' as int == r.spec_code() / 100,
        r.spec_wire()[1] as int - '0' as int == (r.spec_code() / 10) % 10,
        r.spec_wire()[2] as int - '0' as int == r.spec_code() % 10,
        r.spec_wire()[3] == ' ',
        r.spec_wire()[r.spec_wire().len() - 2] == '\r',
        r.spec_wire().last() == '\n',
{
    reveal_strlit("220 smtp2tg ready\r\n");
    reveal_strlit("250 smtp2tg\r\n");
    reveal_strlit("250 OK\r\n");
    reveal_strlit("503 MAIL first\r\n");
    reveal_strlit("503 Need MAIL and RCPT\r\n");
    reveal_strlit("354 End with <CR><LF>.<CR><LF>\r\n");
    reveal_strlit("221 Bye\r\n");
    reveal_strlit("502 Command not supported\r\n");
    reveal_strlit("250 Message accepted\r\n");
}

} // verus!
