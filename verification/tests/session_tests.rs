use smtp2tg::session::EnvelopeState::{Initial, RecipientSet, SenderSet};
use smtp2tg::session::{classify, respond, Action, Command, EnvelopeState, Phase, Reply, Session};
use smtp2tg::text::chars_of;

fn in_state(envelope: EnvelopeState) -> Session {
    let (mut s, _) = Session::new();
    s.envelope = envelope;
    s
}

const ALL_STATES: [EnvelopeState; 3] =
    [EnvelopeState::Initial, EnvelopeState::SenderSet, EnvelopeState::RecipientSet];

#[test]
fn new_session_sends_the_banner() {
    let (s, banner) = Session::new();
    assert_eq!(banner, Reply::Ready);
    assert_eq!(banner.wire(), "220 smtp2tg ready\r\n");
    assert_eq!(banner.code(), 220);
    assert_eq!(s.envelope, EnvelopeState::Initial);
    assert_eq!(s.phase, Phase::Command);
}

#[test]
fn reply_texts_and_codes() {
    assert_eq!(Reply::Hello.wire(), "250 smtp2tg\r\n");
    assert_eq!(Reply::Okay.wire(), "250 OK\r\n");
    assert_eq!(Reply::MailFirst.wire(), "503 MAIL first\r\n");
    assert_eq!(Reply::NeedMailAndRcpt.wire(), "503 Need MAIL and RCPT\r\n");
    assert_eq!(Reply::StartData.wire(), "354 End with <CR><LF>.<CR><LF>\r\n");
    assert_eq!(Reply::Bye.wire(), "221 Bye\r\n");
    assert_eq!(Reply::NotSupported.wire(), "502 Command not supported\r\n");
    assert_eq!(Reply::Accepted.wire(), "250 Message accepted\r\n");
    for r in [
        Reply::Ready,
        Reply::Hello,
        Reply::Okay,
        Reply::MailFirst,
        Reply::NeedMailAndRcpt,
        Reply::StartData,
        Reply::Bye,
        Reply::NotSupported,
        Reply::Accepted,
    ] {
        assert!(r.wire().starts_with(&format!("{} ", r.code())));
        assert!(r.wire().ends_with("\r\n"));
    }
}

#[test]
fn classify_tells_the_commands_apart() {
    assert_eq!(classify(&chars_of("EHLO client.example")), Command::Hello);
    assert_eq!(classify(&chars_of("HELO")), Command::Hello);
    assert_eq!(classify(&chars_of("ehlo client")), Command::Unknown);
    assert_eq!(classify(&chars_of("MAIL FROM:<a@b>")), Command::Mail);
    assert_eq!(classify(&chars_of("mail from:<a@b>")), Command::Unknown);
    assert_eq!(classify(&chars_of("RCPT TO:<c@d>")), Command::Rcpt);
    assert_eq!(classify(&chars_of("DATA")), Command::Data);
    assert_eq!(classify(&chars_of("data")), Command::Data);
    assert_eq!(classify(&chars_of("DATA now")), Command::Unknown);
    assert_eq!(classify(&chars_of("QUIT")), Command::Quit);
    assert_eq!(classify(&chars_of("Quit")), Command::Quit);
    assert_eq!(classify(&chars_of("QUIT ")), Command::Unknown);
    assert_eq!(classify(&chars_of("")), Command::Unknown);
    assert_eq!(classify(&chars_of("NOOP")), Command::Unknown);
}

#[test]
fn respond_follows_the_table() {
    for e in ALL_STATES {
        assert_eq!(respond(e, Command::Hello), (e, Phase::Command, Reply::Hello));
        assert_eq!(respond(e, Command::Mail), (SenderSet, Phase::Command, Reply::Okay));
        assert_eq!(respond(e, Command::Quit), (e, Phase::Closed, Reply::Bye));
        assert_eq!(respond(e, Command::Unknown), (e, Phase::Command, Reply::NotSupported));
    }
    assert_eq!(respond(Initial, Command::Rcpt), (Initial, Phase::Command, Reply::MailFirst));
    assert_eq!(respond(SenderSet, Command::Rcpt), (RecipientSet, Phase::Command, Reply::Okay));
    assert_eq!(respond(RecipientSet, Command::Rcpt), (RecipientSet, Phase::Command, Reply::Okay));
    assert_eq!(
        respond(Initial, Command::Data),
        (Initial, Phase::Command, Reply::NeedMailAndRcpt)
    );
    assert_eq!(
        respond(SenderSet, Command::Data),
        (SenderSet, Phase::Command, Reply::NeedMailAndRcpt)
    );
    assert_eq!(respond(RecipientSet, Command::Data), (RecipientSet, Phase::Data, Reply::StartData));
}

#[test]
fn greeting_in_any_state_yields_250_and_keeps_the_state() {
    for e in ALL_STATES {
        for line in ["EHLO x\r\n", "HELO x\n", "EHLO", "HELOworld\r\n"] {
            let mut s = in_state(e);
            let before = s.clone();
            let a = s.on_line(line);
            assert_eq!(a, Action::Send(Reply::Hello));
            assert_eq!(Reply::Hello.code(), 250);
            assert_eq!(s, before);
        }
    }
}

#[test]
fn rcpt_before_mail_yields_503() {
    let (mut s, _) = Session::new();
    let a = s.on_line("RCPT TO:<c@d>\r\n");
    assert_eq!(a, Action::Send(Reply::MailFirst));
    assert_eq!(Reply::MailFirst.code(), 503);
    assert_eq!(s.envelope, EnvelopeState::Initial);
    assert_eq!(s.phase, Phase::Command);
}

#[test]
fn rcpt_after_mail_yields_250_and_advances() {
    let (mut s, _) = Session::new();
    assert_eq!(s.on_line("MAIL FROM:<a@b>\r\n"), Action::Send(Reply::Okay));
    assert_eq!(s.envelope, EnvelopeState::SenderSet);
    assert_eq!(s.on_line("RCPT TO:<c@d>\r\n"), Action::Send(Reply::Okay));
    assert_eq!(s.envelope, EnvelopeState::RecipientSet);
    assert_eq!(s.on_line("RCPT TO:<e@f>\r\n"), Action::Send(Reply::Okay));
    assert_eq!(s.envelope, EnvelopeState::RecipientSet);
}

#[test]
fn mail_sets_the_sender_from_any_state() {
    for e in ALL_STATES {
        let mut s = in_state(e);
        assert_eq!(s.on_line("MAIL FROM:<a@b>\r\n"), Action::Send(Reply::Okay));
        assert_eq!(s.envelope, EnvelopeState::SenderSet);
    }
}

#[test]
fn data_before_mail_and_rcpt_yields_503() {
    for e in [EnvelopeState::Initial, EnvelopeState::SenderSet] {
        for line in ["DATA\r\n", "data\n", "Data"] {
            let mut s = in_state(e);
            let before = s.clone();
            assert_eq!(s.on_line(line), Action::Send(Reply::NeedMailAndRcpt));
            assert_eq!(Reply::NeedMailAndRcpt.code(), 503);
            assert_eq!(s, before);
        }
    }
}

#[test]
fn data_with_envelope_starts_capture() {
    let mut s = in_state(EnvelopeState::RecipientSet);
    assert_eq!(s.on_line("DATA\r\n"), Action::SendAndFlush(Reply::StartData));
    assert_eq!(s.phase, Phase::Data);
    assert_eq!(s.envelope, EnvelopeState::RecipientSet);
}

#[test]
fn quit_in_any_state_yields_221_and_closes() {
    for e in ALL_STATES {
        for line in ["QUIT\r\n", "quit\n", "QuIt"] {
            let mut s = in_state(e);
            assert_eq!(s.on_line(line), Action::SendAndClose(Reply::Bye));
            assert_eq!(Reply::Bye.wire(), "221 Bye\r\n");
            assert_eq!(s.phase, Phase::Closed);
            assert_eq!(s.envelope, e);
        }
    }
}

#[test]
fn unknown_command_yields_502() {
    for e in ALL_STATES {
        let mut s = in_state(e);
        let before = s.clone();
        assert_eq!(s.on_line("NOOP\r\n"), Action::Send(Reply::NotSupported));
        assert_eq!(s.on_line("\r\n"), Action::Send(Reply::NotSupported));
        assert_eq!(s.on_line("DATA \r\n"), Action::Send(Reply::NotSupported));
        assert_eq!(s, before);
    }
}

#[test]
fn end_of_stream_in_the_command_phase_closes_silently() {
    for e in ALL_STATES {
        let mut s = in_state(e);
        assert_eq!(s.on_end_of_stream(), Action::Close);
        assert_eq!(s.phase, Phase::Closed);
        assert_eq!(s.on_line("EHLO x\r\n"), Action::Close);
        assert_eq!(s.on_end_of_stream(), Action::Close);
        assert_eq!(s.phase, Phase::Closed);
    }
}

#[test]
fn a_whole_transaction() {
    let (mut s, _) = Session::new();
    assert_eq!(s.on_line("EHLO client\r\n"), Action::Send(Reply::Hello));
    assert_eq!(s.on_line("MAIL FROM:<a@b>\r\n"), Action::Send(Reply::Okay));
    assert_eq!(s.on_line("RCPT TO:<c@d>\r\n"), Action::Send(Reply::Okay));
    assert_eq!(s.on_line("DATA\r\n"), Action::SendAndFlush(Reply::StartData));
    assert_eq!(s.on_line("Subject: Test\r\n"), Action::Read);
    assert_eq!(s.on_line("QUIT\r\n"), Action::Read);
    assert_eq!(s.on_line("\r\n"), Action::Read);
    assert_eq!(s.on_line("line1\r\n"), Action::Read);
    assert_eq!(s.on_line("EHLO\r\n"), Action::Read);
    match s.on_line(".\r\n") {
        Action::Deliver(m) => {
            assert_eq!(m.subject, "Test");
            assert_eq!(m.body, "line1\nEHLO");
        }
        other => panic!("unexpected action {:?}", other),
    }
    assert_eq!(s.phase, Phase::Command);
    assert_eq!(s.envelope, EnvelopeState::RecipientSet);
    assert_eq!(s.on_line("QUIT\r\n"), Action::SendAndClose(Reply::Bye));
}

#[test]
fn envelope_is_kept_between_transactions() {
    let mut s = in_state(EnvelopeState::RecipientSet);
    assert_eq!(s.on_line("DATA\r\n"), Action::SendAndFlush(Reply::StartData));
    assert!(matches!(s.on_line(".\r\n"), Action::Deliver(_)));
    assert_eq!(s.on_line("DATA\r\n"), Action::SendAndFlush(Reply::StartData));
    assert_eq!(s.on_line("Subject: second\r\n"), Action::Read);
    match s.on_line(".\r\n") {
        Action::Deliver(m) => {
            assert_eq!(m.subject, "second");
            assert_eq!(m.body, "");
        }
        other => panic!("unexpected action {:?}", other),
    }
}

#[test]
fn end_of_stream_during_capture_delivers_what_came() {
    let mut s = in_state(EnvelopeState::RecipientSet);
    assert_eq!(s.on_line("DATA\r\n"), Action::SendAndFlush(Reply::StartData));
    assert_eq!(s.on_line("\r\n"), Action::Read);
    assert_eq!(s.on_line("partial"), Action::Read);
    match s.on_end_of_stream() {
        Action::Deliver(m) => {
            assert_eq!(m.subject, "[No Subject]");
            assert_eq!(m.body, "partial");
        }
        other => panic!("unexpected action {:?}", other),
    }
    assert_eq!(s.phase, Phase::Command);
    assert_eq!(s.on_end_of_stream(), Action::Close);
    assert_eq!(s.phase, Phase::Closed);
}
