use peer_chat::message::CONTROL_LEN;
use peer_chat::{
    Address, Client, Datagram, DecodeError, Error, History, Message, Reaction, Step,
};

fn address(port: u16) -> Address {
    Address::V4 { ip: 0x7f00_0001, port }
}

fn done<T>(result: Result<T, Error>) -> Step<T> {
    Step::Done { closing: None, result }
}

/// Has `requester` connect to `listener`, carrying each datagram across.
fn handshake(listener: &mut Client, requester: &mut Client) {
    let request = requester.connect(listener.address()).unwrap();
    assert_eq!(request.to, listener.address());
    let accepted = listener.wait_for_connection(requester.address(), &request.bytes).unwrap();
    assert_eq!(accepted.peer(), requester.address());
    let reply = accepted.reply().clone();
    listener.establish(accepted);
    assert_eq!(reply.to, requester.address());
    let step = requester.connect_step(listener.address(), listener.address(), &reply.bytes);
    assert_eq!(step, done(Ok(())));
}

/// Has `sender` send `message` and `receiver` take it as a text.
fn deliver(sender: &mut Client, receiver: &mut Client, message: Message) -> Step<String> {
    let datagram = transmit(sender, message);
    assert_eq!(datagram.to, receiver.address());
    receiver.recv_text(sender.address(), &datagram.bytes)
}

/// Has `sender` send `message` as its driver does when the socket takes the
/// datagram, and hands the datagram out.
fn transmit(sender: &mut Client, message: Message) -> Datagram {
    let outgoing = sender.send(message).unwrap();
    let datagram = outgoing.datagram().clone();
    sender.sent(outgoing);
    datagram
}

/// Has `receiver` take the confirmation that ended `step`.
fn confirm(step: Step<String>, confirmed: &mut Client, receiver: &mut Client) -> Step<String> {
    match step {
        Step::Done { closing: Some(confirmation), result: Err(Error::Disconnected) } => {
            assert_eq!(confirmation.to, receiver.address());
            receiver.recv_text(confirmed.address(), &confirmation.bytes)
        }
        other => panic!("no confirmation in {:?}", other),
    }
}

#[test]
fn connect() {
    let mut client1 = Client::new(address(4001));
    let mut client2 = Client::new(address(4002));

    handshake(&mut client1, &mut client2);

    assert_eq!(client1.peer_addr(), Ok(address(4002)));
    assert_eq!(client2.peer_addr(), Ok(address(4001)));
}

#[test]
fn communicate() {
    let mut client1 = Client::new(address(4001));
    let mut client2 = Client::new(address(4002));

    handshake(&mut client1, &mut client2);

    let step = deliver(&mut client2, &mut client1, Message::from("Hello"));
    assert_eq!(step, done(Ok("Hello".to_string())));
    let step = deliver(&mut client1, &mut client2, Message::from("Bye"));
    assert_eq!(step, done(Ok("Bye".to_string())));
}

#[test]
fn disconnect() {
    let mut client1 = Client::new(address(4001));
    let mut client2 = Client::new(address(4002));

    handshake(&mut client1, &mut client2);

    let step = deliver(&mut client2, &mut client1, Message::from("Hello"));
    assert_eq!(step, done(Ok("Hello".to_string())));

    let step = deliver(&mut client1, &mut client2, Message::Disconnect);
    assert!(matches!(step, Step::Done { result: Err(Error::Disconnected), .. }));
    assert!(!client2.is_connected());

    let step = confirm(step, &mut client2, &mut client1);
    assert_eq!(step, done(Err(Error::Disconnected)));
    assert!(!client1.is_connected());
}

#[test]
fn history() {
    let mut client1 = Client::new(address(4001));
    let mut client2 = Client::new(address(4002));

    handshake(&mut client1, &mut client2);

    let step = deliver(&mut client2, &mut client1, Message::from("Hello"));
    assert_eq!(step, done(Ok("Hello".to_string())));
    let step = deliver(&mut client1, &mut client2, Message::from("Bye"));
    assert_eq!(step, done(Ok("Bye".to_string())));

    let step = deliver(&mut client1, &mut client2, Message::Disconnect);
    assert!(matches!(step, Step::Done { result: Err(Error::Disconnected), .. }));
    assert!(!client2.is_connected());
    let step = confirm(step, &mut client2, &mut client1);
    assert!(matches!(step, Step::Done { result: Err(Error::Disconnected), .. }));
    assert!(!client1.is_connected());

    handshake(&mut client2, &mut client1);

    let history = client2.history().unwrap();
    assert_eq!(*history, [(true, "Hello".into()), (false, "Bye".into())]);
    let history = client1.history().unwrap();
    assert_eq!(*history, [(false, "Hello".into()), (true, "Bye".into())]);
}

#[test]
fn three_clients() {
    let mut client1 = Client::new(address(4001));
    let mut client2 = Client::new(address(4002));
    let mut client3 = Client::new(address(4003));

    handshake(&mut client3, &mut client2);
    let step = deliver(&mut client3, &mut client2, Message::Disconnect);
    assert!(matches!(step, Step::Done { result: Err(Error::Disconnected), .. }));
    let step = confirm(step, &mut client2, &mut client3);
    assert!(matches!(step, Step::Done { result: Err(Error::Disconnected), .. }));
    assert!(!client3.is_connected());

    handshake(&mut client1, &mut client2);
    let step = deliver(&mut client2, &mut client1, Message::Disconnect);
    assert!(matches!(step, Step::Done { result: Err(Error::Disconnected), .. }));
    let step = confirm(step, &mut client1, &mut client2);
    assert!(matches!(step, Step::Done { result: Err(Error::Disconnected), .. }));

    handshake(&mut client2, &mut client1);
    assert_eq!(client1.peer_addr(), Ok(address(4002)));
    assert_eq!(client2.peer_addr(), Ok(address(4001)));
}

#[test]
fn new_session_is_idle() {
    let client = Client::new(address(4001));
    assert_eq!(client.address(), address(4001));
    assert_eq!(client.peer_addr(), Err(Error::NotConnected));
    assert!(!client.is_connected());
    assert_eq!(client.history(), None);
}

#[test]
fn connect_to_self_is_refused() {
    let client = Client::new(address(4001));
    assert_eq!(client.connect(address(4001)), Err(Error::SelfConnect));
    assert!(!client.is_connected());

    let v6 = Address::V6 { ip: 1, port: 4001, flowinfo: 0, scope_id: 0 };
    let client = Client::new(v6);
    assert_eq!(client.connect(v6), Err(Error::SelfConnect));
    let other_scope = Address::V6 { ip: 1, port: 4001, flowinfo: 0, scope_id: 1 };
    assert_eq!(client.connect(other_scope).unwrap().to, other_scope);
}

#[test]
fn connect_sends_a_request() {
    let client = Client::new(address(4001));
    let request = client.connect(address(4002)).unwrap();
    assert_eq!(request.to, address(4002));
    assert_eq!(request.bytes, vec![0, 1]);
    assert!(!client.is_connected());
}

#[test]
fn listen_accepts_a_request() {
    let mut client = Client::new(address(4001));
    let accepted = client.wait_for_connection(address(4002), &[0, 1]).unwrap();
    assert!(!client.is_connected());
    assert_eq!(accepted.peer(), address(4002));
    assert_eq!(accepted.reply().to, address(4002));
    assert_eq!(accepted.reply().bytes, vec![0, 2]);
    client.establish(accepted);
    assert_eq!(client.peer_addr(), Ok(address(4002)));
}

#[test]
fn listen_fails_on_anything_but_a_request() {
    let client = Client::new(address(4001));
    let from = address(4002);
    assert_eq!(
        client.wait_for_connection(from, &[0, 2]).unwrap_err(),
        Error::UnexpectedMessage(Message::ConnectionAccepted)
    );
    assert_eq!(
        client.wait_for_connection(from, &[0, 3]).unwrap_err(),
        Error::UnexpectedMessage(Message::Unexpected)
    );
    assert_eq!(
        client.wait_for_connection(from, &[1, 72, 0]).unwrap_err(),
        Error::UnexpectedMessage(Message::Text("H".to_string()))
    );
    assert_eq!(
        client.wait_for_connection(from, &[0, 9]).unwrap_err(),
        Error::Decode(DecodeError::UnknownControlMessage)
    );
    assert_eq!(
        client.wait_for_connection(from, &[]).unwrap_err(),
        Error::Decode(DecodeError::UnknownMessageType)
    );
    assert!(!client.is_connected());
}

#[test]
fn handshake_decides_on_two_bytes() {
    let client = Client::new(address(4001));
    let from = address(4002);
    let long = [0, 1, 7, 7, 7];
    let whole = client.wait_for_connection(from, &long).unwrap();
    let cut = client.wait_for_connection(from, &long[..CONTROL_LEN]).unwrap();
    assert_eq!(whole.reply(), cut.reply());

    let text = Message::from("Hello").into_bytes();
    assert_eq!(
        client.wait_for_connection(from, &text).unwrap_err(),
        Error::UnexpectedMessage(Message::Text("Hello".to_string()))
    );
    assert_eq!(
        client.wait_for_connection(from, &text[..CONTROL_LEN]).unwrap_err(),
        Error::UnexpectedMessage(Message::Text(String::new()))
    );

    let mut client = Client::new(address(4001));
    assert_eq!(
        client.connect_step(from, from, &[0, 3, 9][..CONTROL_LEN]),
        done(Err(Error::HandshakeRejected))
    );
    assert_eq!(client.connect_step(from, from, &[0, 3, 9]), done(Err(Error::HandshakeRejected)));
    assert_eq!(client.connect_step(from, from, &[0, 2, 9][..CONTROL_LEN]), done(Ok(())));
}

#[test]
fn connect_passes_over_strangers() {
    let mut client = Client::new(address(4001));
    let target = address(4002);
    let stranger = address(4003);
    let step = client.connect_step(target, stranger, &[0, 2]);
    match step {
        Step::Continue { reply, required } => {
            assert_eq!(reply.to, stranger);
            assert_eq!(reply.bytes, vec![0, 3]);
            assert!(!required);
        }
        other => panic!("{:?}", other),
    }
    assert!(!client.is_connected());
    assert_eq!(client.connect_step(target, target, &[0, 2]), done(Ok(())));
    assert_eq!(client.peer_addr(), Ok(target));
}

#[test]
fn connect_fails_when_rejected() {
    let mut client = Client::new(address(4001));
    let target = address(4002);
    assert_eq!(client.connect_step(target, target, &[0, 3]), done(Err(Error::HandshakeRejected)));
    assert!(!client.is_connected());
}

#[test]
fn connect_fails_on_an_unexpected_answer() {
    let mut client = Client::new(address(4001));
    let target = address(4002);
    assert_eq!(
        client.connect_step(target, target, &[0, 1]),
        done(Err(Error::UnexpectedMessage(Message::TryConnect)))
    );
    assert_eq!(
        client.connect_step(target, target, &[1, 0]),
        done(Err(Error::UnexpectedMessage(Message::Text(String::new()))))
    );
    assert_eq!(
        client.connect_step(target, target, &[7]),
        done(Err(Error::Decode(DecodeError::UnknownMessageType)))
    );
    assert!(!client.is_connected());
}

#[test]
fn connect_is_rejected_by_a_busy_session() {
    let mut client1 = Client::new(address(4001));
    let mut client2 = Client::new(address(4002));
    let mut client3 = Client::new(address(4003));
    handshake(&mut client3, &mut client1);

    let request = client2.connect(address(4003)).unwrap();
    let rejection = match client3.recv_text(address(4002), &request.bytes) {
        Step::Continue { reply, required } => {
            assert!(required);
            reply
        }
        other => panic!("{:?}", other),
    };
    assert_eq!(rejection.to, address(4002));
    assert_eq!(client3.peer_addr(), Ok(address(4001)));

    let step = client2.connect_step(address(4003), address(4003), &rejection.bytes);
    assert_eq!(step, done(Err(Error::HandshakeRejected)));
    assert!(!client2.is_connected());
}

#[test]
fn send_needs_a_peer() {
    let client = Client::new(address(4001));
    assert_eq!(client.send(Message::from("Hello")), Err(Error::NotConnected));
    assert_eq!(client.send(Message::Disconnect), Err(Error::NotConnected));
    assert_eq!(client.history(), None);
}

#[test]
fn send_encodes_for_the_peer() {
    let mut client1 = Client::new(address(4001));
    let mut client2 = Client::new(address(4002));
    handshake(&mut client1, &mut client2);
    let datagram = transmit(&mut client1, Message::from("Hi"));
    assert_eq!(datagram.to, address(4002));
    assert_eq!(datagram.bytes, vec![1, 72, 105, 0]);
    let datagram = transmit(&mut client1, Message::Disconnect);
    assert_eq!(datagram.to, address(4002));
    assert_eq!(datagram.bytes, vec![0, 4]);
    assert!(client1.is_connected());
}

#[test]
fn failed_send_leaves_the_session_as_it_was() {
    let mut client1 = Client::new(address(4001));
    let mut client2 = Client::new(address(4002));
    handshake(&mut client1, &mut client2);
    transmit(&mut client1, Message::from("first"));
    let before = client1.history();
    assert_eq!(before, Some(vec![(true, "first".to_string())]));

    // The transport fails: the driver drops what was made ready.
    let outgoing = client1.send(Message::from("lost")).unwrap();
    assert_eq!(outgoing.datagram().bytes, vec![1, 108, 111, 115, 116, 0]);
    assert_eq!(client1.peer_addr(), Ok(address(4002)));
    assert_eq!(client1.history(), before);

    // The caller tries again and the transport takes it: logged once.
    transmit(&mut client1, Message::from("lost"));
    assert_eq!(
        client1.history(),
        Some(vec![(true, "first".to_string()), (true, "lost".to_string())])
    );
    assert_eq!(client1.peer_addr(), Ok(address(4002)));
}

#[test]
fn failed_first_send_starts_no_conversation() {
    let mut client1 = Client::new(address(4001));
    let mut client2 = Client::new(address(4002));
    handshake(&mut client1, &mut client2);
    let outgoing = client1.send(Message::from("lost")).unwrap();
    assert_eq!(outgoing.datagram().to, address(4002));
    assert_eq!(client1.history(), None);
}

#[test]
fn sent_text_is_logged_for_the_address_it_went_to() {
    let mut client1 = Client::new(address(4001));
    let mut client2 = Client::new(address(4002));
    let mut client3 = Client::new(address(4003));
    handshake(&mut client1, &mut client2);
    let outgoing = client1.send(Message::from("for two")).unwrap();

    // The peer leaves and another comes before the driver reports back.
    let step = client1.recv_text(address(4002), &[0, 4]);
    assert!(matches!(step, Step::Done { result: Err(Error::Disconnected), .. }));
    handshake(&mut client1, &mut client3);
    client1.sent(outgoing);
    assert_eq!(client1.history(), None);

    let step = client1.recv_text(address(4003), &[0, 4]);
    assert!(matches!(step, Step::Done { result: Err(Error::Disconnected), .. }));
    handshake(&mut client1, &mut client2);
    assert_eq!(client1.history(), Some(vec![(true, "for two".to_string())]));
}

#[test]
fn only_text_is_logged() {
    let mut client1 = Client::new(address(4001));
    let mut client2 = Client::new(address(4002));
    handshake(&mut client1, &mut client2);
    assert_eq!(client1.history(), None);

    transmit(&mut client1, Message::TryConnect);
    transmit(&mut client1, Message::Unexpected);
    assert_eq!(client1.history(), None);
    assert_eq!(client1.recv(address(4002), &[0, 1]), done(Ok(Message::TryConnect)));
    assert_eq!(client1.history(), None);

    transmit(&mut client1, Message::from("one"));
    assert_eq!(client1.recv(address(4002), &[1, 50, 0]), done(Ok(Message::Text("2".into()))));
    assert_eq!(client1.history(), Some(vec![(true, "one".to_string()), (false, "2".to_string())]));
}

#[test]
fn receive_needs_a_peer() {
    let mut client = Client::new(address(4001));
    assert_eq!(client.recv(address(4002), &[1, 72, 0]), done(Err(Error::NotConnected)));
    assert_eq!(client.recv_text(address(4002), &[1, 72, 0]), done(Err(Error::NotConnected)));
}

#[test]
fn strangers_are_turned_away() {
    let mut client1 = Client::new(address(4001));
    let mut client2 = Client::new(address(4002));
    handshake(&mut client1, &mut client2);

    let stranger = address(4003);
    for bytes in [vec![1, 72, 105, 0], vec![0, 4], vec![0, 5], vec![], vec![9]] {
        match client1.recv_text(stranger, &bytes) {
            Step::Continue { reply, required } => {
                assert_eq!(reply.to, stranger);
                assert_eq!(reply.bytes, vec![0, 3]);
                assert!(required);
            }
            other => panic!("{:?}", other),
        }
        assert!(matches!(client1.recv(stranger, &bytes), Step::Continue { .. }));
    }
    assert_eq!(client1.peer_addr(), Ok(address(4002)));
    assert_eq!(client1.history(), None);

    let same_host_other_port = address(4004);
    assert!(matches!(client1.recv_text(same_host_other_port, &[0, 4]), Step::Continue { .. }));
    assert!(client1.is_connected());
}

#[test]
fn receive_reports_what_is_no_message() {
    let mut client1 = Client::new(address(4001));
    let mut client2 = Client::new(address(4002));
    handshake(&mut client1, &mut client2);
    let peer = address(4002);
    assert_eq!(
        client1.recv_text(peer, &[]),
        done(Err(Error::Decode(DecodeError::UnknownMessageType)))
    );
    assert_eq!(
        client1.recv_text(peer, &[0, 77]),
        done(Err(Error::Decode(DecodeError::UnknownControlMessage)))
    );
    assert_eq!(client1.recv(peer, &[3]), done(Err(Error::Decode(DecodeError::UnknownMessageType))));
    assert!(client1.is_connected());
}

#[test]
fn unexpected_message_keeps_the_session_connected() {
    let mut client1 = Client::new(address(4001));
    let mut client2 = Client::new(address(4002));
    handshake(&mut client1, &mut client2);
    let peer = address(4002);
    assert_eq!(
        client1.recv_text(peer, &[0, 2]),
        done(Err(Error::UnexpectedMessage(Message::ConnectionAccepted)))
    );
    assert_eq!(
        client1.recv_text(peer, &[0, 1]),
        done(Err(Error::UnexpectedMessage(Message::TryConnect)))
    );
    assert_eq!(
        client1.recv_text(peer, &[0, 3]),
        done(Err(Error::UnexpectedMessage(Message::Unexpected)))
    );
    assert_eq!(client1.peer_addr(), Ok(peer));
    assert_eq!(client1.recv_text(peer, &[1, 72, 0]), done(Ok("H".to_string())));
}

#[test]
fn disconnect_is_confirmed() {
    let mut client1 = Client::new(address(4001));
    let mut client2 = Client::new(address(4002));
    handshake(&mut client1, &mut client2);
    match client1.recv_text(address(4002), &[0, 4]) {
        Step::Done { closing: Some(confirmation), result } => {
            assert_eq!(confirmation.to, address(4002));
            assert_eq!(confirmation.bytes, vec![0, 5]);
            assert_eq!(result, Err(Error::Disconnected));
        }
        other => panic!("{:?}", other),
    }
    assert_eq!(client1.peer_addr(), Err(Error::NotConnected));
}

#[test]
fn confirmation_ends_the_session_without_a_reply() {
    let mut client1 = Client::new(address(4001));
    let mut client2 = Client::new(address(4002));
    handshake(&mut client1, &mut client2);
    assert_eq!(client1.recv_text(address(4002), &[0, 5]), done(Err(Error::Disconnected)));
    assert!(!client1.is_connected());
}

#[test]
fn raw_receive_leaves_disconnect_to_the_caller() {
    let mut client1 = Client::new(address(4001));
    let mut client2 = Client::new(address(4002));
    handshake(&mut client1, &mut client2);
    assert_eq!(client1.recv(address(4002), &[0, 4]), done(Ok(Message::Disconnect)));
    assert!(client1.is_connected());
}

#[test]
fn history_is_kept_per_peer_and_resumed() {
    let mut client1 = Client::new(address(4001));
    let mut client2 = Client::new(address(4002));
    let mut client3 = Client::new(address(4003));

    handshake(&mut client1, &mut client2);
    deliver(&mut client1, &mut client2, Message::from("Hello"));
    deliver(&mut client2, &mut client1, Message::from("Bye"));
    let step = deliver(&mut client1, &mut client2, Message::Disconnect);
    confirm(step, &mut client2, &mut client1);
    assert_eq!(client1.history(), None);

    handshake(&mut client1, &mut client3);
    assert_eq!(client1.history(), None);
    deliver(&mut client3, &mut client1, Message::from("Hi, three here"));
    assert_eq!(client1.history(), Some(vec![(false, "Hi, three here".to_string())]));
    let step = deliver(&mut client3, &mut client1, Message::Disconnect);
    confirm(step, &mut client1, &mut client3);

    handshake(&mut client2, &mut client1);
    assert_eq!(
        client1.history(),
        Some(vec![(true, "Hello".to_string()), (false, "Bye".to_string())])
    );
    deliver(&mut client1, &mut client2, Message::from("Again"));
    assert_eq!(
        client1.history(),
        Some(vec![
            (true, "Hello".to_string()),
            (false, "Bye".to_string()),
            (true, "Again".to_string())
        ])
    );
    assert_eq!(
        client2.history(),
        Some(vec![
            (false, "Hello".to_string()),
            (true, "Bye".to_string()),
            (false, "Again".to_string())
        ])
    );
}

#[test]
fn log_records_and_finds_by_peer() {
    let mut log = History::new();
    assert_eq!(log.get(address(1)), None);
    log.record(address(1), true, "a".to_string());
    log.record(address(2), false, "b".to_string());
    log.record(address(1), false, "c".to_string());
    assert_eq!(log.get(address(1)), Some(vec![(true, "a".to_string()), (false, "c".to_string())]));
    assert_eq!(log.get(address(2)), Some(vec![(false, "b".to_string())]));
    assert_eq!(log.get(address(3)), None);
}

#[test]
fn receiver_loop_shows_reports_and_stops() {
    let mut client1 = Client::new(address(4001));
    let mut client2 = Client::new(address(4002));
    assert_eq!(client1.react(Err(Error::NotConnected.describe())), Reaction::Stop);
    handshake(&mut client1, &mut client2);
    assert_eq!(client1.react(Ok("Hello".to_string())), Reaction::Show("Message: Hello".to_string()));
    assert_eq!(
        client1.react(Err(Error::UnexpectedMessage(Message::TryConnect).describe())),
        Reaction::Report("unexpected message: Connection request".to_string())
    );
    assert_eq!(
        client1.react(Err("socket closed".to_string())),
        Reaction::Report("socket closed".to_string())
    );
    let step = client1.recv_text(address(4002), &[0, 4]);
    match step {
        Step::Done { result, .. } => {
            assert_eq!(client1.react(result.map_err(|error| error.describe())), Reaction::Stop)
        }
        other => panic!("{:?}", other),
    }
}
