use rust_ss5::opt::Opt;
use rust_ss5::relay::{relay_step, RelayAction, RelayEvent, Side};
use rust_ss5::session::{refusal_bytes, reply_bytes, Action, Event, Session, State};
use rust_ss5::socket5::{
    Address, ByteStream, Command, Error, MethodChoice, Proxy, Reply, ShakeHands, SocketAddress,
};

/// Runs the handshake from the client's bytes and returns the session that awaits a request.
fn after_handshake(client: &mut ByteStream) -> Session {
    let (session, action) = Session::open();
    assert_eq!(action, Action::ReadHandshake);
    assert_eq!(session.state(), &State::AwaitHandshake);
    let offer = ShakeHands::from(client).unwrap();
    let (session, action) = session.step(Event::Handshake(offer));
    assert_eq!(action, Action::Send(vec![0x05, 0x00]));
    assert_eq!(session.state(), &State::MethodChosen);
    let (session, action) = session.step(Event::Written);
    assert_eq!(action, Action::ReadRequest);
    assert_eq!(session.state(), &State::AwaitRequest);
    session
}

fn report_request(session: Session, client: &mut ByteStream) -> (Session, Action) {
    let event = match Proxy::from(client) {
        Ok(request) => Event::Request(request),
        Err(e) => Event::Failed(e),
    };
    assert!(event.is_wf());
    session.step(event)
}

#[test]
fn scenario_connect_to_loopback() {
    let mut client = ByteStream::new(vec![
        0x05, 0x01, 0x00, 0x05, 0x01, 0x00, 0x01, 0x7F, 0x00, 0x00, 0x01, 0x00, 0x50,
    ]);
    let session = after_handshake(&mut client);
    let (session, action) = report_request(session, &mut client);
    let target = Address::Address(SocketAddress::V4([127, 0, 0, 1], 80));
    assert_eq!(action, Action::Connect(target.clone()));
    assert_eq!(session.state(), &State::Connecting(target));
    let (session, action) = session.step(Event::Connected);
    assert_eq!(
        action,
        Action::Relay(vec![0x05, 0x00, 0x00, 0x01, 0x7F, 0x00, 0x00, 0x01, 0x00, 0x50])
    );
    assert_eq!(session.state(), &State::Relaying);
    assert!(!session.is_closed());
    let (session, action) = session.step(Event::Finished);
    assert_eq!(action, Action::Close);
    assert!(session.is_closed());
    assert_eq!(client.len(), 0);
}

#[test]
fn scenario_connect_fails() {
    let mut bytes = vec![0x05, 0x01, 0x00, 0x05, 0x01, 0x00, 0x03, 15];
    bytes.extend_from_slice(b"example.invalid");
    bytes.extend_from_slice(&[0x27, 0x0F]);
    let mut client = ByteStream::new(bytes);
    let session = after_handshake(&mut client);
    let (session, action) = report_request(session, &mut client);
    let target = Address::DomainName("example.invalid".to_string(), 9999);
    assert_eq!(action, Action::Connect(target));
    let (session, action) = session.step(Event::Failed(Error::IoError));
    assert_eq!(action, Action::Reject(vec![0x05, 0x01, 0x00, 0x01, 0, 0, 0, 0, 0, 0]));
    assert_eq!(session.state(), &State::Closed);
    let (session, action) = session.step(Event::Written);
    assert_eq!(action, Action::Close);
    assert!(session.is_closed());
}

#[test]
fn scenario_connect_fails_with_unreachable_host() {
    let mut client = ByteStream::new(vec![
        0x05, 0x01, 0x00, 0x05, 0x01, 0x00, 0x01, 10, 0, 0, 1, 0x00, 0x50,
    ]);
    let session = after_handshake(&mut client);
    let (session, _) = report_request(session, &mut client);
    let (session, action) = session.step(Event::Failed(Error::AddressDomainNo));
    assert_eq!(action, Action::Reject(vec![0x05, 0x04, 0x00, 0x01, 0, 0, 0, 0, 0, 0]));
    assert!(session.is_closed());
}

#[test]
fn scenario_bind_is_parsed_and_closes_silently() {
    let mut client = ByteStream::new(vec![
        0x05, 0x01, 0x00, 0x05, 0x02, 0x00, 0x01, 0x7F, 0x00, 0x00, 0x01, 0x00, 0x50,
    ]);
    let session = after_handshake(&mut client);
    let mut peek = ByteStream::new(vec![0x05, 0x02, 0x00, 0x01, 0x7F, 0x00, 0x00, 0x01, 0x00, 0x50]);
    let parsed = Proxy::from(&mut peek).unwrap();
    assert_eq!(parsed.command, Command::BIND);
    assert_eq!(parsed.address, Address::Address(SocketAddress::V4([127, 0, 0, 1], 80)));
    let (session, action) = report_request(session, &mut client);
    assert_eq!(action, Action::Close);
    assert!(session.is_closed());
}

#[test]
fn udp_associate_closes_silently() {
    let mut client = ByteStream::new(vec![
        0x05, 0x01, 0x00, 0x05, 0x03, 0x00, 0x01, 0x7F, 0x00, 0x00, 0x01, 0x00, 0x50,
    ]);
    let session = after_handshake(&mut client);
    let (session, action) = report_request(session, &mut client);
    assert_eq!(action, Action::Close);
    assert!(session.is_closed());
}

#[test]
fn handshake_without_acceptable_method_is_still_answered() {
    let mut client = ByteStream::new(vec![0x05, 0x02, 0x01, 0x02]);
    let (session, _) = Session::open();
    let offer = ShakeHands::from(&mut client).unwrap();
    assert_eq!(offer.methods, vec![0x01, 0x02]);
    let (_, action) = session.step(Event::Handshake(offer));
    assert_eq!(action, Action::Send(vec![0x05, 0x00]));
    let (session, _) = Session::open();
    let (_, action) = session.step(Event::Handshake(ShakeHands::new(vec![])));
    assert_eq!(action, Action::Send(vec![0x05, 0x00]));
}

#[test]
fn handshake_cut_short_closes_silently() {
    let mut client = ByteStream::new(vec![0x05, 0x03, 0x00]);
    let (session, _) = Session::open();
    let event = match ShakeHands::from(&mut client) {
        Ok(offer) => Event::Handshake(offer),
        Err(e) => Event::Failed(e),
    };
    assert_eq!(event, Event::Failed(Error::IoError));
    let (session, action) = session.step(event);
    assert_eq!(action, Action::Close);
    assert!(session.is_closed());
}

#[test]
fn failed_write_of_the_method_answer_closes_silently() {
    let (session, _) = Session::open();
    let (session, _) = session.step(Event::Handshake(ShakeHands::new(vec![0])));
    let (session, action) = session.step(Event::Failed(Error::IoError));
    assert_eq!(action, Action::Close);
    assert!(session.is_closed());
}

#[test]
fn request_decode_errors_are_answered_with_their_status() {
    let cases: [(Vec<u8>, u8); 3] = [
        (vec![0x05, 0x01, 0x00, 0x7F], 0x08),
        (vec![0x05, 0x09, 0x00], 0x07),
        (vec![0x05, 0x01, 0x00, 0x03, 0x01, 0xFF, 0x00, 0x50], 0x04),
    ];
    for (request, status) in cases {
        let mut bytes = vec![0x05, 0x01, 0x00];
        bytes.extend_from_slice(&request);
        let mut client = ByteStream::new(bytes);
        let session = after_handshake(&mut client);
        let (session, action) = report_request(session, &mut client);
        assert_eq!(action, Action::Reject(vec![0x05, status, 0x00, 0x01, 0, 0, 0, 0, 0, 0]));
        assert!(session.is_closed());
    }
}

#[test]
fn request_cut_short_closes_silently() {
    let mut client = ByteStream::new(vec![0x05, 0x01, 0x00, 0x05, 0x01, 0x00, 0x01, 0x7F]);
    let session = after_handshake(&mut client);
    let (session, action) = report_request(session, &mut client);
    assert_eq!(action, Action::Close);
    assert!(session.is_closed());
}

#[test]
fn closed_session_stays_closed() {
    let events = || {
        vec![
            Event::Handshake(ShakeHands::new(vec![0])),
            Event::Written,
            Event::Request(Proxy::new(Command::CONNECT, Address::unspecified())),
            Event::Connected,
            Event::Failed(Error::CommandNo(9)),
            Event::Finished,
        ]
    };
    for first in events() {
        let (session, _) = Session::open();
        let (session, _) = session.step(Event::Failed(Error::IoError));
        assert!(session.is_closed());
        let (session, action) = session.step(first);
        assert_eq!(action, Action::Close);
        assert!(session.is_closed());
    }
}

#[test]
fn unexpected_events_close_the_session() {
    let (session, _) = Session::open();
    let (session, action) = session.step(Event::Connected);
    assert_eq!(action, Action::Close);
    assert!(session.is_closed());

    let (session, _) = Session::open();
    let (session, _) = session.step(Event::Handshake(ShakeHands::new(vec![0])));
    let (session, action) = session.step(Event::Handshake(ShakeHands::new(vec![0])));
    assert_eq!(action, Action::Close);
    assert!(session.is_closed());
}

#[test]
fn two_sessions_do_not_share_state() {
    let mut first = ByteStream::new(vec![
        0x05, 0x01, 0x00, 0x05, 0x01, 0x00, 0x01, 10, 0, 0, 1, 0x00, 0x50,
    ]);
    let mut second = ByteStream::new(vec![
        0x05, 0x01, 0x00, 0x05, 0x01, 0x00, 0x01, 10, 0, 0, 2, 0x01, 0xBB,
    ]);
    let a = after_handshake(&mut first);
    let b = after_handshake(&mut second);
    let (a, _) = report_request(a, &mut first);
    let (b, _) = report_request(b, &mut second);
    let (b, reply_b) = b.step(Event::Connected);
    let (a, reply_a) = a.step(Event::Connected);
    assert_eq!(reply_a, Action::Relay(vec![0x05, 0x00, 0x00, 0x01, 10, 0, 0, 1, 0x00, 0x50]));
    assert_eq!(reply_b, Action::Relay(vec![0x05, 0x00, 0x00, 0x01, 10, 0, 0, 2, 0x01, 0xBB]));
    let (a, _) = a.step(Event::Finished);
    assert!(a.is_closed());
    assert_eq!(b.state(), &State::Relaying);
}

#[test]
fn reply_bytes_carry_status_and_address() {
    let address = Address::DomainName("a.b".to_string(), 1);
    assert_eq!(
        reply_bytes(Reply::RepSuccess, &address),
        vec![0x05, 0x00, 0x00, 0x03, 3, b'a', b'.', b'b', 0x00, 0x01]
    );
    assert_eq!(
        reply_bytes(Reply::Other(0x42), &Address::unspecified()),
        vec![0x05, 0x42, 0x00, 0x01, 0, 0, 0, 0, 0, 0]
    );
    assert_eq!(refusal_bytes(Error::VersionNo(4)), vec![0x05, 0x09, 0x00, 0x01, 0, 0, 0, 0, 0, 0]);
    assert_eq!(refusal_bytes(Error::IoError), vec![0x05, 0x01, 0x00, 0x01, 0, 0, 0, 0, 0, 0]);
}

#[test]
fn reply_with_address_decodes_back() {
    let address = Address::Address(SocketAddress::V6([9; 16], 4242));
    let bytes = reply_bytes(Reply::RepTtlExp, &address);
    let mut stream = ByteStream::new(bytes.clone());
    assert_eq!(Reply::from(&mut stream), Ok(Reply::RepTtlExp));
    assert_eq!(stream.len(), 0);
    let mut parts = ByteStream::new(bytes);
    assert_eq!(parts.read_exact(3), Ok(vec![0x05, 0x06, 0x00]));
    assert_eq!(Address::from(&mut parts), Ok(address));
    assert_eq!(parts.len(), 0);
}

#[test]
fn event_with_oversized_name_is_not_well_formed() {
    let long = Proxy::new(Command::CONNECT, Address::DomainName("x".repeat(256), 1));
    assert!(!long.is_wf());
    assert!(!Event::Request(long).is_wf());
    assert!(Event::Connected.is_wf());
    assert!(Event::Failed(Error::IoError).is_wf());
}

#[test]
fn client_connect_test() {
    let request = Proxy::new(Command::CONNECT, Address::DomainName("baidu.com".to_string(), 80));
    let mut hello = Vec::new();
    ShakeHands::new(vec![0x00]).write(&mut hello);
    assert_eq!(hello, vec![0x05, 0x01, 0x00]);

    let mut server = ByteStream::new(hello);
    let (session, _) = Session::open();
    let offer = ShakeHands::from(&mut server).unwrap();
    let (_, action) = session.step(Event::Handshake(offer));
    let answer = match action {
        Action::Send(bytes) => bytes,
        other => panic!("unexpected action {:?}", other),
    };

    let mut from_server = ByteStream::new(answer);
    let choice = MethodChoice::from(&mut from_server).unwrap();
    assert_eq!(choice.accept(), Ok(()));
    assert!(request.is_wf());
    let mut out = Vec::new();
    request.write(&mut out);
    let mut expected = vec![0x05, 0x01, 0x00, 0x03, 9];
    expected.extend_from_slice(b"baidu.com");
    expected.extend_from_slice(&[0x00, 80]);
    assert_eq!(out, expected);
}

#[test]
fn relay_forwards_to_the_other_side_unchanged() {
    assert_eq!(
        relay_step(RelayEvent::Read(Side::Client, vec![1, 2, 3])),
        RelayAction::Forward(Side::Upstream, vec![1, 2, 3])
    );
    assert_eq!(
        relay_step(RelayEvent::Read(Side::Upstream, vec![0x05, 0x00])),
        RelayAction::Forward(Side::Client, vec![0x05, 0x00])
    );
    assert_eq!(Side::Client.other(), Side::Upstream);
    assert_eq!(Side::Upstream.other(), Side::Client);
}

#[test]
fn relay_stops_at_end_of_stream_and_on_failure() {
    assert_eq!(relay_step(RelayEvent::Read(Side::Client, vec![])), RelayAction::Stop);
    assert_eq!(relay_step(RelayEvent::Read(Side::Upstream, vec![])), RelayAction::Stop);
    assert_eq!(relay_step(RelayEvent::Failed(Side::Client)), RelayAction::Stop);
    assert_eq!(relay_step(RelayEvent::Failed(Side::Upstream)), RelayAction::Stop);
}

#[test]
fn opt_conf_defaults_to_one() {
    assert_eq!(Opt::new(None).conf(), "1");
    assert_eq!(Opt::new(Some("/etc/ss5.conf".to_string())).conf(), "/etc/ss5.conf");
    assert_eq!(Opt::new(Some(String::new())).conf(), "");
}

#[test]
fn relay_run_delivers_a_prefix_in_order() {
    let events = vec![
        RelayEvent::Read(Side::Client, vec![1, 2]),
        RelayEvent::Read(Side::Upstream, vec![9]),
        RelayEvent::Read(Side::Client, vec![3]),
        RelayEvent::Read(Side::Upstream, vec![]),
        RelayEvent::Read(Side::Client, vec![4, 5]),
    ];
    let mut to_upstream: Vec<u8> = Vec::new();
    let mut to_client: Vec<u8> = Vec::new();
    for event in events {
        match relay_step(event) {
            RelayAction::Forward(Side::Upstream, bytes) => to_upstream.extend(bytes),
            RelayAction::Forward(Side::Client, bytes) => to_client.extend(bytes),
            RelayAction::Stop => break,
        }
    }
    assert_eq!(to_upstream, vec![1, 2, 3]);
    assert_eq!(to_client, vec![9]);
}

#[test]
fn interleaved_sessions_act_as_they_would_alone() {
    let events_a = || {
        vec![
            Event::Handshake(ShakeHands::new(vec![0])),
            Event::Written,
            Event::Request(Proxy::new(
                Command::CONNECT,
                Address::Address(SocketAddress::V4([10, 0, 0, 1], 80)),
            )),
            Event::Connected,
        ]
    };
    let events_b = || {
        vec![
            Event::Handshake(ShakeHands::new(vec![2])),
            Event::Written,
            Event::Request(Proxy::new(Command::BIND, Address::unspecified())),
        ]
    };
    let alone = |events: Vec<Event>| {
        let (mut session, _) = Session::open();
        let mut actions = Vec::new();
        for event in events {
            let next = session.step(event);
            session = next.0;
            actions.push(next.1);
        }
        actions
    };
    let (mut a, _) = Session::open();
    let (mut b, _) = Session::open();
    let mut actions_a = Vec::new();
    let mut actions_b = Vec::new();
    let mut rest_a = events_a().into_iter();
    let mut rest_b = events_b().into_iter();
    for first in [true, false, false, true, true, false, true] {
        if first {
            let next = a.step(rest_a.next().unwrap());
            a = next.0;
            actions_a.push(next.1);
        } else {
            let next = b.step(rest_b.next().unwrap());
            b = next.0;
            actions_b.push(next.1);
        }
    }
    assert_eq!(actions_a, alone(events_a()));
    assert_eq!(actions_b, alone(events_b()));
    assert_eq!(a.state(), &State::Relaying);
    assert!(b.is_closed());
}
