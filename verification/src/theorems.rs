//! What holds of every session, proved from the rules of the protocol.

use crate::address::Address;
use crate::error::ErrorView;
use crate::history::{appended, conversation};
use crate::message::{lemma_decode_control_len, lemma_decode_encode, MessageView, CONTROL_LEN};
use crate::protocol::{
    after_send, connect, connect_step, datagram, done, establish, received, recv, recv_text, send,
    sent, wait_for_connection, with_peer, ClientView, DatagramView, OutgoingView, StepView,
};
use vstd::prelude::*;

verus! {

/// Whether `after` holds every conversation of `before`, each with its old
/// entries at the head.
pub open spec fn grown(
    before: Map<Address, Seq<(bool, Seq<char>)>>,
    after: Map<Address, Seq<(bool, Seq<char>)>>,
) -> bool {
    forall|peer: Address| #[trigger]
        before.dom().contains(peer) ==> after.dom().contains(peer) && before[peer].is_prefix_of(
            after[peer],
        )
}

/// A session never connects to itself, and where it refuses there is no
/// datagram to transmit.
pub proof fn lemma_self_connect_refused(client: ClientView)
    ensures
        connect(client, client.local) == Err::<DatagramView, ErrorView>(ErrorView::SelfConnect),
{
}

/// A connected session keeps strangers out: a datagram from anyone but the
/// peer is answered with `Unexpected`, changes nothing and hands no message
/// to the caller, whatever it holds.
pub proof fn lemma_peer_isolation(client: ClientView, stranger: Address, bytes: Seq<u8>)
    requires
        client.peer is Some,
        client.peer != Some(stranger),
    ensures
        recv(client, stranger, bytes) == (
            client,
            StepView::<MessageView>::Continue {
                reply: datagram(stranger, MessageView::Unexpected),
                required: true,
            },
        ),
        recv_text(client, stranger, bytes) == (
            client,
            StepView::<Seq<char>>::Continue {
                reply: datagram(stranger, MessageView::Unexpected),
                required: true,
            },
        ),
{
}

/// The handshake succeeds: where one session listens and another connects to
/// it, the request reaches the listener, its answer reaches the requester, and
/// each ends with the other as its peer.
pub proof fn lemma_handshake(listener: ClientView, requester: ClientView)
    requires
        listener.local != requester.local,
    ensures
        ({
            let request = datagram(listener.local, MessageView::TryConnect);
            let reply = datagram(requester.local, MessageView::ConnectionAccepted);
            let accepted = wait_for_connection(requester.local, request.bytes);
            &&& connect(requester, listener.local) == Ok::<DatagramView, ErrorView>(request)
            &&& accepted is Ok
            &&& accepted->Ok_0.reply == reply
            &&& establish(listener, accepted->Ok_0) == with_peer(
                listener,
                Some(requester.local),
            )
            &&& connect_step(requester, listener.local, listener.local, reply.bytes) == (
                with_peer(requester, Some(listener.local)),
                done::<()>(Ok(())),
            )
        }),
{
    lemma_decode_encode(MessageView::TryConnect);
    lemma_decode_encode(MessageView::ConnectionAccepted);
}

/// Whether two results are the same, or both the error that a text arrived
/// where none was expected, whatever the text.
pub open spec fn same_but_for_text<T>(one: Result<T, ErrorView>, other: Result<T, ErrorView>) -> bool {
    ||| one == other
    ||| (one matches Err(ErrorView::UnexpectedMessage(MessageView::Text(_)))
        && other matches Err(ErrorView::UnexpectedMessage(MessageView::Text(_))))
}

/// A handshake reads two bytes: whether a session listens or waits for the
/// answer to its request, it decides on the first two bytes of a datagram as
/// it does on the whole, and ends in the same state. Only the text that the
/// error about an unexpected text message carries is cut short.
pub proof fn lemma_handshake_reads_two_bytes(
    client: ClientView,
    target: Address,
    from: Address,
    bytes: Seq<u8>,
)
    requires
        bytes.len() >= CONTROL_LEN,
    ensures
        same_but_for_text(
            wait_for_connection(from, bytes.take(CONTROL_LEN as int)),
            wait_for_connection(from, bytes),
        ),
        connect_step(client, target, from, bytes.take(CONTROL_LEN as int)).0 == connect_step(
            client,
            target,
            from,
            bytes,
        ).0,
        (match (
            connect_step(client, target, from, bytes.take(CONTROL_LEN as int)).1,
            connect_step(client, target, from, bytes).1,
        ) {
            (
                StepView::Done { closing: None, result: cut },
                StepView::Done { closing: None, result: whole },
            ) => same_but_for_text(cut, whole),
            (cut, whole) => cut == whole,
        }),
{
    lemma_decode_control_len(bytes);
}

/// A text that one side sends reaches the other: the receiver is handed the
/// text as it was sent. Once the datagram went out the sender's log has the
/// text as sent, and the receiver's has it as received. Nothing else changes
/// on either side.
pub proof fn lemma_text_exchange(sender: ClientView, receiver: ClientView, text: Seq<char>)
    requires
        sender.peer == Some(receiver.local),
        receiver.peer == Some(sender.local),
    ensures
        ({
            let outgoing = send(sender, MessageView::Text(text));
            let (receiver_after, step) = recv_text(
                receiver,
                sender.local,
                outgoing->Ok_0.datagram.bytes,
            );
            &&& outgoing is Ok
            &&& outgoing->Ok_0.datagram == datagram(receiver.local, MessageView::Text(text))
            &&& step == done(Ok(text))
            &&& sent(sender, outgoing->Ok_0) == (ClientView {
                history: appended(sender.history, receiver.local, true, text),
                ..sender
            })
            &&& receiver_after == (ClientView {
                history: appended(receiver.history, sender.local, false, text),
                ..receiver
            })
        }),
{
    lemma_decode_encode(MessageView::Text(text));
}

/// A message that did not go out leaves no trace: making a message ready
/// changes nothing, so after an attempt to send that ended without a peer or
/// with a failure of the transport the session is as it was, and the same
/// message may be sent again without being logged twice. Where the datagram
/// went out, the peer stays and the log has the text once more, as sent to the
/// peer.
pub proof fn lemma_failed_send_leaves_no_trace(client: ClientView, message: MessageView)
    ensures
        after_send(client, message, false) == client,
        send(client, message) is Err <==> client.peer is None,
        client.peer is None ==> after_send(client, message, true) == client,
        after_send(client, message, true).peer == client.peer,
        after_send(client, message, true).local == client.local,
        (match (client.peer, message) {
            (Some(peer), MessageView::Text(text)) => after_send(client, message, true).history
                == appended(client.history, peer, true, text),
            _ => after_send(client, message, true) == client,
        }),
{
}

/// The disconnect handshake ends the session on both sides: the side that is
/// asked to disconnect confirms and is left without a peer, and the side that
/// asked is left without one when the confirmation arrives. Both operations
/// fail with `Disconnected`, and neither log changes.
pub proof fn lemma_disconnect(asking: ClientView, asked: ClientView)
    requires
        asking.peer == Some(asked.local),
        asked.peer == Some(asking.local),
    ensures
        ({
            let request = datagram(asked.local, MessageView::Disconnect);
            let confirmation = datagram(asking.local, MessageView::DisconnectAck);
            &&& send(asking, MessageView::Disconnect) == Ok::<OutgoingView, ErrorView>(
                OutgoingView { datagram: request, text: None },
            )
            &&& after_send(asking, MessageView::Disconnect, true) == asking
            &&& recv_text(asked, asking.local, request.bytes) == (
                with_peer(asked, None),
                StepView::<Seq<char>>::Done {
                    closing: Some(confirmation),
                    result: Err(ErrorView::Disconnected),
                },
            )
            &&& recv_text(asking, asked.local, confirmation.bytes) == (
                with_peer(asking, None),
                done::<Seq<char>>(Err(ErrorView::Disconnected)),
            )
        }),
{
    lemma_decode_encode(MessageView::Disconnect);
    lemma_decode_encode(MessageView::DisconnectAck);
}

/// A session that did not ask for a connection rejects one, and the
/// requester learns of it: whether the session is busy with another peer or
/// waits for the answer of another target, it answers the request with
/// `Unexpected` and stays as it is, and that answer fails the requester's
/// attempt with `HandshakeRejected`.
pub proof fn lemma_unsolicited_connect_rejected(
    requester: ClientView,
    busy: ClientView,
    other_target: Address,
)
    requires
        requester.local != busy.local,
        busy.peer is Some,
        busy.peer != Some(requester.local),
        other_target != requester.local,
    ensures
        ({
            let request = datagram(busy.local, MessageView::TryConnect);
            let rejection = datagram(requester.local, MessageView::Unexpected);
            &&& connect(requester, busy.local) == Ok::<DatagramView, ErrorView>(request)
            &&& recv_text(busy, requester.local, request.bytes) == (
                busy,
                StepView::<Seq<char>>::Continue { reply: rejection, required: true },
            )
            &&& connect_step(busy, other_target, requester.local, request.bytes) == (
                busy,
                StepView::<()>::Continue { reply: rejection, required: false },
            )
            &&& connect_step(requester, busy.local, busy.local, rejection.bytes) == (
                requester,
                done::<()>(Err(ErrorView::HandshakeRejected)),
            )
        }),
{
    lemma_decode_encode(MessageView::Unexpected);
}

/// One more entry keeps every conversation, with its old entries at the head.
pub proof fn lemma_appended_grows(
    log: Map<Address, Seq<(bool, Seq<char>)>>,
    peer: Address,
    outgoing: bool,
    text: Seq<char>,
)
    ensures
        grown(log, appended(log, peer, outgoing, text)),
{
    let after = appended(log, peer, outgoing, text);
    assert forall|other: Address| #[trigger] log.dom().contains(other) implies after.dom().contains(
        other,
    ) && log[other].is_prefix_of(after[other]) by {
        if other == peer {
            assert(conversation(log, peer) == log[peer]);
        }
    }
}

/// The log only grows: whatever a session is given, every conversation that
/// it held before an operation it holds after it, with the old entries at the
/// head. So what was said with a peer outlasts the connection, and is taken
/// up again where the same peer comes back.
pub proof fn lemma_history_grows(
    client: ClientView,
    outgoing: OutgoingView,
    target: Address,
    from: Address,
    bytes: Seq<u8>,
)
    ensures
        grown(client.history, sent(client, outgoing).history),
        grown(client.history, recv(client, from, bytes).0.history),
        grown(client.history, recv_text(client, from, bytes).0.history),
        grown(client.history, connect_step(client, target, from, bytes).0.history),
        wait_for_connection(from, bytes) is Ok ==> grown(
            client.history,
            establish(client, wait_for_connection(from, bytes)->Ok_0).history,
        ),
{
    if let Some(text) = outgoing.text {
        lemma_appended_grows(client.history, outgoing.datagram.to, true, text);
    }
    if let (Some(peer), StepView::Done { result: Ok(MessageView::Text(text)), .. }) = (
        client.peer,
        recv(client, from, bytes).1,
    ) {
        lemma_appended_grows(client.history, peer, false, text);
    }
}

/// Handshakes leave the log as it is, the disconnect handshake too: a peer
/// that comes back finds the conversation where it ended.
pub proof fn lemma_connections_keep_history(
    client: ClientView,
    target: Address,
    from: Address,
    bytes: Seq<u8>,
)
    ensures
        connect_step(client, target, from, bytes).0.history == client.history,
        wait_for_connection(from, bytes) is Ok ==> establish(
            client,
            wait_for_connection(from, bytes)->Ok_0,
        ).history == client.history,
        (match recv_text(client, from, bytes).1 {
            StepView::Done { result: Err(_), .. } => recv_text(client, from, bytes).0.history
                == client.history,
            _ => true,
        }),
{
}

/// A conversation is logged on both sides and outlasts the connection: two
/// sessions that exchange one text each way, disconnect and connect again
/// both hold the two texts at the end of what they held with each other
/// before, each text marked as sent on the side that sent it and as received
/// on the other.
pub proof fn lemma_conversation_resumed(
    first: ClientView,
    second: ClientView,
    hello: Seq<char>,
    bye: Seq<char>,
)
    requires
        first.local != second.local,
        first.peer == Some(second.local),
        second.peer == Some(first.local),
    ensures
        ({
            let hello_sent = send(first, MessageView::Text(hello));
            let first_sent = sent(first, hello_sent->Ok_0);
            let (second_received, _) = recv_text(
                second,
                first.local,
                hello_sent->Ok_0.datagram.bytes,
            );
            let bye_sent = send(second_received, MessageView::Text(bye));
            let second_sent = sent(second_received, bye_sent->Ok_0);
            let (first_received, _) = recv_text(
                first_sent,
                second.local,
                bye_sent->Ok_0.datagram.bytes,
            );
            let request = send(first_received, MessageView::Disconnect);
            let first_asked = sent(first_received, request->Ok_0);
            let (second_left, confirmed) = recv_text(
                second_sent,
                first.local,
                request->Ok_0.datagram.bytes,
            );
            let confirmation = confirmed->Done_closing->Some_0;
            let (first_left, _) = recv_text(first_asked, second.local, confirmation.bytes);
            let again = connect(first_left, second.local);
            let accepted = wait_for_connection(first.local, again->Ok_0.bytes);
            let second_back = establish(second_left, accepted->Ok_0);
            let (first_back, _) = connect_step(
                first_left,
                second.local,
                second.local,
                accepted->Ok_0.reply.bytes,
            );
            &&& hello_sent is Ok && bye_sent is Ok && request is Ok
            &&& confirmed is Done && confirmed->Done_closing is Some
            &&& first_left.peer is None
            &&& second_left.peer is None
            &&& again is Ok
            &&& accepted is Ok
            &&& first_back.peer == Some(second.local)
            &&& second_back.peer == Some(first.local)
            &&& conversation(first_back.history, second.local) == conversation(
                first.history,
                second.local,
            ) + seq![(true, hello), (false, bye)]
            &&& conversation(second_back.history, first.local) == conversation(
                second.history,
                first.local,
            ) + seq![(false, hello), (true, bye)]
        }),
{
    lemma_decode_encode(MessageView::Text(hello));
    lemma_decode_encode(MessageView::Text(bye));
    lemma_decode_encode(MessageView::Disconnect);
    lemma_decode_encode(MessageView::DisconnectAck);
    lemma_decode_encode(MessageView::TryConnect);
    lemma_decode_encode(MessageView::ConnectionAccepted);
    let before = conversation(first.history, second.local);
    assert(before.push((true, hello)).push((false, bye)) =~= before + seq![
        (true, hello),
        (false, bye),
    ]);
    let before = conversation(second.history, first.local);
    assert(before.push((false, hello)).push((true, bye)) =~= before + seq![
        (false, hello),
        (true, bye),
    ]);
}

/// A session never changes the address that it is bound to.
pub proof fn lemma_address_fixed(
    client: ClientView,
    outgoing: OutgoingView,
    target: Address,
    from: Address,
    bytes: Seq<u8>,
)
    ensures
        sent(client, outgoing).local == client.local,
        recv(client, from, bytes).0.local == client.local,
        recv_text(client, from, bytes).0.local == client.local,
        connect_step(client, target, from, bytes).0.local == client.local,
        wait_for_connection(from, bytes) is Ok ==> establish(
            client,
            wait_for_connection(from, bytes)->Ok_0,
        ).local == client.local,
{
}

/// No message reaches the caller but from the peer: where receiving hands out
/// a message, the session has a peer and the datagram came from it.
pub proof fn lemma_messages_come_from_the_peer(client: ClientView, from: Address, bytes: Seq<u8>)
    ensures
        (match recv(client, from, bytes).1 {
            StepView::Done { result: Ok(_), .. } => client.peer == Some(from),
            _ => true,
        }),
        (match recv_text(client, from, bytes).1 {
            StepView::Done { result: Ok(_), .. } => client.peer == Some(from),
            _ => true,
        }),
{
}

/// Control messages leave no trace in the log, sent or received.
pub proof fn lemma_only_text_is_logged(client: ClientView, message: MessageView)
    requires
        !(message is Text),
    ensures
        received(client, message) == client,
        after_send(client, message, true) == client,
{
}

/// An error leaves the session as it was, be it the session's own or the
/// transport's, but for `Disconnected`, which comes with the loss of the peer
/// and of nothing else.
pub proof fn lemma_errors_keep_state(
    client: ClientView,
    message: MessageView,
    target: Address,
    from: Address,
    bytes: Seq<u8>,
)
    ensures
        after_send(client, message, false) == client,
        send(client, message) is Err ==> after_send(client, message, true) == client,
        (match recv(client, from, bytes).1 {
            StepView::Done { result: Err(_), .. } => recv(client, from, bytes).0 == client,
            _ => true,
        }),
        (match recv_text(client, from, bytes).1 {
            StepView::Done { result: Err(ErrorView::Disconnected), .. } => recv_text(
                client,
                from,
                bytes,
            ).0 == with_peer(client, None),
            StepView::Done { result: Err(_), .. } => recv_text(client, from, bytes).0 == client,
            _ => true,
        }),
        (match connect_step(client, target, from, bytes).1 {
            StepView::Done { result: Err(_), .. } => connect_step(client, target, from, bytes).0
                == client,
            _ => true,
        }),
{
}

} // verus!
