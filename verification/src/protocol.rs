//! The rules of a session as mathematics: what each operation makes of a
//! session and of the datagram it is given.
//!
//! The functions here have the names of the operations of
//! [`Client`](crate::client::Client), whose contracts are stated over them.

use crate::address::Address;
use crate::error::ErrorView;
use crate::history::{appended, lookup};
use crate::message::{decode, encode, MessageView};
use vstd::prelude::*;

verus! {

/// A session as a mathematical value.
pub ghost struct ClientView {
    /// The address that the session is bound to.
    pub local: Address,
    /// The peer, while the session has one.
    pub peer: Option<Address>,
    /// What was said, by peer.
    pub history: Map<Address, Seq<(bool, Seq<char>)>>,
}

/// A datagram to transmit as a mathematical value.
pub ghost struct DatagramView {
    pub to: Address,
    pub bytes: Seq<u8>,
}

/// A message on its way out as a mathematical value: the datagram that
/// carries it and, for a text, the text that the log is to hold once the
/// datagram went out.
pub ghost struct OutgoingView {
    pub datagram: DatagramView,
    pub text: Option<Seq<char>>,
}

/// An accepted connection request as a mathematical value.
pub ghost struct AcceptedView {
    pub peer: Address,
    pub reply: DatagramView,
}

/// What a session makes of one datagram, as a mathematical value.
pub ghost enum StepView<T> {
    Continue { reply: DatagramView, required: bool },
    Done { closing: Option<DatagramView>, result: Result<T, ErrorView> },
}

/// What the loop that shows incoming texts does next, as a mathematical
/// value.
pub ghost enum ReactionView {
    Show(Seq<char>),
    Report(Seq<char>),
    Stop,
}

/// The datagram that carries `message` to `to`.
pub open spec fn datagram(to: Address, message: MessageView) -> DatagramView {
    DatagramView { to, bytes: encode(message) }
}

/// The step that ends an operation with `result` and nothing to transmit.
pub open spec fn done<T>(result: Result<T, ErrorView>) -> StepView<T> {
    StepView::Done { closing: None, result }
}

/// A session that is bound to `local` and has met nobody yet.
pub open spec fn idle(local: Address) -> ClientView {
    ClientView { local, peer: None, history: Map::empty() }
}

/// The session `client` with `peer` in place of its peer.
pub open spec fn with_peer(client: ClientView, peer: Option<Address>) -> ClientView {
    ClientView { peer, ..client }
}

/// The session after `message` has arrived from its peer: a text is entered
/// as received in the conversation with the peer, a control message leaves no
/// trace.
pub open spec fn received(client: ClientView, message: MessageView) -> ClientView {
    match (client.peer, message) {
        (Some(peer), MessageView::Text(text)) => ClientView {
            history: appended(client.history, peer, false, text),
            ..client
        },
        _ => client,
    }
}

/// The peer, or the error of a session that has none.
pub open spec fn peer_addr(client: ClientView) -> Result<Address, ErrorView> {
    match client.peer {
        Some(peer) => Ok(peer),
        None => Err(ErrorView::NotConnected),
    }
}

/// The conversation with the current peer: there is none without a peer, nor
/// before the first text has passed.
pub open spec fn history(client: ClientView) -> Option<Seq<(bool, Seq<char>)>> {
    match client.peer {
        Some(peer) => lookup(client.history, peer),
        None => None,
    }
}

/// The text that the log holds of `message` once it has passed: a text is
/// kept, a control message leaves no trace.
pub open spec fn text_of(message: MessageView) -> Option<Seq<char>> {
    match message {
        MessageView::Text(text) => Some(text),
        _ => None,
    }
}

/// Sending `message`: without a peer it fails. With one, the message is made
/// ready for the peer. The session stays as it is: nothing is logged before
/// the datagram went out.
pub open spec fn send(client: ClientView, message: MessageView) -> Result<OutgoingView, ErrorView> {
    match client.peer {
        None => Err(ErrorView::NotConnected),
        Some(peer) => Ok(OutgoingView { datagram: datagram(peer, message), text: text_of(message) }),
    }
}

/// The session after the datagram of `outgoing` went out: a text is entered
/// as sent in the conversation with the address that it went to, and nothing
/// else changes.
pub open spec fn sent(client: ClientView, outgoing: OutgoingView) -> ClientView {
    match outgoing.text {
        Some(text) => ClientView {
            history: appended(client.history, outgoing.datagram.to, true, text),
            ..client
        },
        None => client,
    }
}

/// The session after one attempt to send `message`, the driver's part
/// included: where the datagram went out, the session has entered the message
/// as sent. Where there was no peer, or the transport failed, it is as it was.
pub open spec fn after_send(client: ClientView, message: MessageView, transmitted: bool) -> ClientView {
    match send(client, message) {
        Ok(outgoing) => if transmitted {
            sent(client, outgoing)
        } else {
            client
        },
        Err(_) => client,
    }
}

/// Receiving a datagram that came from `from`: without a peer it fails. A
/// stranger is told `Unexpected` and the session goes on waiting. What the
/// peer sent is decoded, logged and handed out.
pub open spec fn recv(client: ClientView, from: Address, bytes: Seq<u8>) -> (
    ClientView,
    StepView<MessageView>,
) {
    match client.peer {
        None => (client, done(Err(ErrorView::NotConnected))),
        Some(peer) => if from != peer {
            (
                client,
                StepView::Continue {
                    reply: datagram(from, MessageView::Unexpected),
                    required: true,
                },
            )
        } else {
            match decode(bytes) {
                Err(error) => (client, done(Err(ErrorView::Decode(error)))),
                Ok(message) => (received(client, message), done(Ok(message))),
            }
        },
    }
}

/// Receiving a text: as `recv`, and then a text is handed out, a request to
/// disconnect is confirmed and ends the session, a confirmation ends it too,
/// and any other message is an error that leaves the session connected.
pub open spec fn recv_text(client: ClientView, from: Address, bytes: Seq<u8>) -> (
    ClientView,
    StepView<Seq<char>>,
) {
    let (after, step) = recv(client, from, bytes);
    match step {
        StepView::Continue { reply, required } => (after, StepView::Continue { reply, required }),
        StepView::Done { result: Err(error), .. } => (after, done(Err(error))),
        StepView::Done { result: Ok(message), .. } => match message {
            MessageView::Text(text) => (after, done(Ok(text))),
            MessageView::Disconnect => (
                with_peer(after, None),
                StepView::Done {
                    closing: Some(datagram(from, MessageView::DisconnectAck)),
                    result: Err(ErrorView::Disconnected),
                },
            ),
            MessageView::DisconnectAck => (
                with_peer(after, None),
                done(Err(ErrorView::Disconnected)),
            ),
            other => (after, done(Err(ErrorView::UnexpectedMessage(other)))),
        },
    }
}

/// Listening: the one datagram that arrived, from `from`, is accepted where
/// it is a connection request.
pub open spec fn wait_for_connection(from: Address, bytes: Seq<u8>) -> Result<
    AcceptedView,
    ErrorView,
> {
    match decode(bytes) {
        Err(error) => Err(ErrorView::Decode(error)),
        Ok(MessageView::TryConnect) => Ok(
            AcceptedView { peer: from, reply: datagram(from, MessageView::ConnectionAccepted) },
        ),
        Ok(other) => Err(ErrorView::UnexpectedMessage(other)),
    }
}

/// The session after it took the sender of an accepted request for its peer.
pub open spec fn establish(client: ClientView, accepted: AcceptedView) -> ClientView {
    with_peer(client, Some(accepted.peer))
}

/// Connecting to `target`: the session's own address is refused; any other
/// is sent a connection request.
pub open spec fn connect(client: ClientView, target: Address) -> Result<DatagramView, ErrorView> {
    if target == client.local {
        Err(ErrorView::SelfConnect)
    } else {
        Ok(datagram(target, MessageView::TryConnect))
    }
}

/// Waiting for the answer of `target`: a stranger is told `Unexpected` and the
/// session goes on waiting. From the target, `ConnectionAccepted` makes it the
/// peer, `Unexpected` is a rejection, and anything else is an error.
pub open spec fn connect_step(client: ClientView, target: Address, from: Address, bytes: Seq<u8>) -> (
    ClientView,
    StepView<()>,
) {
    if from != target {
        (
            client,
            StepView::Continue { reply: datagram(from, MessageView::Unexpected), required: false },
        )
    } else {
        match decode(bytes) {
            Err(error) => (client, done(Err(ErrorView::Decode(error)))),
            Ok(MessageView::ConnectionAccepted) => (with_peer(client, Some(target)), done(Ok(()))),
            Ok(MessageView::Unexpected) => (client, done(Err(ErrorView::HandshakeRejected))),
            Ok(other) => (client, done(Err(ErrorView::UnexpectedMessage(other)))),
        }
    }
}

/// What the loop that shows incoming texts does with the outcome of one
/// attempt to receive a text, which is the text or the words of a failure: a
/// text is shown as a message. After a failure the loop ends in silence where
/// the session has lost its peer, and else reports the failure and goes on.
pub open spec fn react(client: ClientView, outcome: Result<Seq<char>, Seq<char>>) -> ReactionView {
    match outcome {
        Ok(text) => ReactionView::Show("Message: "@ + text),
        Err(failure) => if client.peer is None {
            ReactionView::Stop
        } else {
            ReactionView::Report(failure)
        },
    }
}

} // verus!
