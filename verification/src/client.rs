//! The session: one endpoint of a chat, without its socket.
//!
//! A [`Client`] decides and remembers; it performs no I/O. Its driver owns
//! the socket. For an operation that waits for datagrams the driver receives
//! one, hands it to the session together with its sender, transmits what the
//! session hands back and, where the session says so, receives the next.
//!
//! What depends on a datagram going out is entered only after it went out:
//! the driver reports a sent message with [`Client::sent`] and an answered
//! connection request with [`Client::establish`]. A failure of the transport
//! therefore leaves the session as it was.

use crate::address::Address;
use crate::error::{plain_result_view, result_view, Error};
use crate::history::{found_view, History};
use crate::message::Message;
use crate::protocol;
use crate::protocol::{
    AcceptedView, ClientView, DatagramView, OutgoingView, ReactionView, StepView,
};
use vstd::prelude::*;
use vstd::string::StringExecFns;

verus! {

/// A datagram for the driver to transmit.
#[derive(Debug, PartialEq, Eq)]
pub struct Datagram {
    /// Where it goes.
    pub to: Address,
    /// What it holds.
    pub bytes: Vec<u8>,
}

impl View for Datagram {
    type V = DatagramView;

    open spec fn view(&self) -> DatagramView {
        DatagramView { to: self.to, bytes: self.bytes@ }
    }
}

impl Clone for Datagram {
    fn clone(&self) -> (copy: Datagram)
        ensures
            copy@ == self@,
    {
        Datagram { to: self.to, bytes: self.bytes.clone() }
    }
}

/// What a session makes of one datagram during an operation that waits.
#[derive(Debug, PartialEq, Eq)]
pub enum Step<T> {
    /// The datagram came from a stranger. The driver transmits `reply` and
    /// receives the next datagram. Where `required` holds, a reply that
    /// cannot be transmitted ends the operation with the transport's error;
    /// where it does not, such a failure is passed over.
    Continue { reply: Datagram, required: bool },
    /// The operation is over and `result` is its outcome. The driver
    /// transmits `closing` first, if there is one, and passes over a failure
    /// to do so.
    Done { closing: Option<Datagram>, result: Result<T, Error> },
}

impl<T: View> View for Step<T> {
    type V = StepView<T::V>;

    open spec fn view(&self) -> StepView<T::V> {
        match self {
            Step::Continue { reply, required } => StepView::Continue {
                reply: reply@,
                required: *required,
            },
            Step::Done { closing, result } => StepView::Done {
                closing: match closing {
                    Some(datagram) => Some(datagram@),
                    None => None,
                },
                result: result_view(*result),
            },
        }
    }
}

/// The outcome of an attempt to receive a text as a mathematical value: the
/// text, or the words of the failure.
pub open spec fn outcome_view(outcome: Result<String, String>) -> Result<Seq<char>, Seq<char>> {
    match outcome {
        Ok(text) => Ok(text@),
        Err(failure) => Err(failure@),
    }
}

/// What the loop that shows incoming texts does next.
#[derive(Debug, PartialEq, Eq)]
pub enum Reaction {
    /// Show this line and receive again.
    Show(String),
    /// Report this failure and receive again.
    Report(String),
    /// Stop receiving: the session has no peer any more.
    Stop,
}

impl View for Reaction {
    type V = ReactionView;

    open spec fn view(&self) -> ReactionView {
        match self {
            Reaction::Show(line) => ReactionView::Show(line@),
            Reaction::Report(line) => ReactionView::Report(line@),
            Reaction::Stop => ReactionView::Stop,
        }
    }
}

/// A message that a session has made ready for its peer and that has not
/// gone out yet. It is made by [`Client::send`] alone.
#[derive(Debug, PartialEq, Eq)]
pub struct Outgoing {
    datagram: Datagram,
    text: Option<String>,
}

impl View for Outgoing {
    type V = OutgoingView;

    closed spec fn view(&self) -> OutgoingView {
        OutgoingView {
            datagram: self.datagram@,
            text: match self.text {
                Some(text) => Some(text@),
                None => None,
            },
        }
    }
}

impl Outgoing {
    /// The datagram that the driver transmits to the peer.
    pub fn datagram(&self) -> (datagram: &Datagram)
        ensures
            datagram@ == self@.datagram,
    {
        &self.datagram
    }
}

/// A connection request that a listening session has accepted and not yet
/// answered. It is made by [`Client::wait_for_connection`] alone.
#[derive(Debug)]
pub struct Accepted {
    peer: Address,
    reply: Datagram,
}

impl View for Accepted {
    type V = AcceptedView;

    closed spec fn view(&self) -> AcceptedView {
        AcceptedView { peer: self.peer, reply: self.reply@ }
    }
}

impl Accepted {
    /// The sender of the request.
    pub fn peer(&self) -> (peer: Address)
        ensures
            peer == self@.peer,
    {
        self.peer
    }

    /// The answer that the driver transmits to the sender of the request.
    pub fn reply(&self) -> (reply: &Datagram)
        ensures
            reply@ == self@.reply,
    {
        &self.reply
    }
}

/// One endpoint of a chat.
///
/// It is bound to one address for good, has one peer at most, and keeps what
/// was said with each peer it ever had.
#[derive(Debug)]
pub struct Client {
    local: Address,
    peer_addr: Option<Address>,
    chat_history: History,
}

impl View for Client {
    type V = ClientView;

    closed spec fn view(&self) -> ClientView {
        ClientView { local: self.local, peer: self.peer_addr, history: self.chat_history@ }
    }
}

impl Client {
    /// A session bound to `local`, without a peer and with an empty log.
    pub fn new(local: Address) -> (client: Client)
        ensures
            client@ == protocol::idle(local),
    {
        Client { local, peer_addr: None, chat_history: History::new() }
    }

    /// The address that the session is bound to.
    pub fn address(&self) -> (local: Address)
        ensures
            local == self@.local,
    {
        self.local
    }

    /// The peer, or `NotConnected` where the session has none.
    pub fn peer_addr(&self) -> (peer: Result<Address, Error>)
        ensures
            plain_result_view(peer) == protocol::peer_addr(self@),
    {
        match self.peer_addr {
            Some(address) => Ok(address),
            None => Err(Error::NotConnected),
        }
    }

    /// Whether the session has a peer.
    pub fn is_connected(&self) -> (connected: bool)
        ensures
            connected == self@.peer is Some,
    {
        self.peer_addr.is_some()
    }

    /// Enters a message that arrived from the peer in the log. Only a text
    /// leaves an entry.
    fn save_to_history(&mut self, message: &Message)
        ensures
            final(self)@ == protocol::received(old(self)@, message@),
    {
        if let Message::Text(text) = message {
            if let Some(peer) = self.peer_addr {
                self.chat_history.record(peer, false, text.clone());
            }
        }
    }

    /// A copy of the conversation with the current peer, oldest entry first.
    /// Each entry says whether this side sent it, and holds its text. There
    /// is none without a peer, nor before the first text has passed.
    pub fn history(&self) -> (entries: Option<Vec<(bool, String)>>)
        ensures
            found_view(entries) == protocol::history(self@),
    {
        match self.peer_addr {
            Some(peer) => self.chat_history.get(peer),
            None => None,
        }
    }

    /// Makes `message` ready for the peer: hands out the datagram, which the
    /// driver transmits. The session stays as it is, so a transmission that
    /// fails leaves nothing behind and may be tried again. Once the datagram
    /// went out the driver has the session enter it as
    /// [`sent`](Client::sent). Without a peer the operation fails with
    /// `NotConnected`.
    pub fn send(&self, message: Message) -> (outgoing: Result<Outgoing, Error>)
        ensures
            result_view(outgoing) == protocol::send(self@, message@),
    {
        match self.peer_addr {
            None => Err(Error::NotConnected),
            Some(peer) => {
                let text: Option<String> = match &message {
                    Message::Text(text) => Some(text.clone()),
                    _ => None,
                };
                Ok(Outgoing { datagram: Datagram { to: peer, bytes: message.into_bytes() }, text })
            },
        }
    }

    /// Enters a message that went out in the log: a text becomes one more
    /// sent entry in the conversation with the address that it went to, a
    /// control message leaves no trace. Nothing else changes.
    pub fn sent(&mut self, outgoing: Outgoing)
        ensures
            final(self)@ == protocol::sent(old(self)@, outgoing@),
    {
        let to: Address = outgoing.datagram.to;
        if let Some(text) = outgoing.text {
            self.chat_history.record(to, true, text);
        }
    }

    /// Takes a datagram that arrived from `from` while the session waits for
    /// a message of its peer.
    pub fn recv(&mut self, from: Address, bytes: &[u8]) -> (step: Step<Message>)
        ensures
            (final(self)@, step@) == protocol::recv(old(self)@, from, bytes@),
    {
        let peer: Address = match self.peer_addr {
            Some(peer) => peer,
            None => {
                return Step::Done { closing: None, result: Err(Error::NotConnected) };
            },
        };
        if from != peer {
            return Step::Continue {
                reply: Datagram { to: from, bytes: Message::Unexpected.into_bytes() },
                required: true,
            };
        }
        match Message::from_bytes(bytes) {
            Err(error) => Step::Done { closing: None, result: Err(Error::Decode(error)) },
            Ok(message) => {
                self.save_to_history(&message);
                Step::Done { closing: None, result: Ok(message) }
            },
        }
    }

    /// Takes a datagram that arrived from `from` while the session waits for
    /// a text of its peer.
    pub fn recv_text(&mut self, from: Address, bytes: &[u8]) -> (step: Step<String>)
        ensures
            (final(self)@, step@) == protocol::recv_text(old(self)@, from, bytes@),
    {
        match self.recv(from, bytes) {
            Step::Continue { reply, required } => Step::Continue { reply, required },
            Step::Done { closing: _, result: Err(error) } => Step::Done {
                closing: None,
                result: Err(error),
            },
            Step::Done { closing: _, result: Ok(message) } => match message {
                Message::Text(text) => Step::Done { closing: None, result: Ok(text) },
                Message::Disconnect => {
                    self.peer_addr = None;
                    Step::Done {
                        closing: Some(
                            Datagram { to: from, bytes: Message::DisconnectAck.into_bytes() },
                        ),
                        result: Err(Error::Disconnected),
                    }
                },
                Message::DisconnectAck => {
                    self.peer_addr = None;
                    Step::Done { closing: None, result: Err(Error::Disconnected) }
                },
                other => Step::Done { closing: None, result: Err(Error::UnexpectedMessage(other)) },
            },
        }
    }

    /// What the loop that shows incoming texts does with the outcome of one
    /// attempt to receive a text. The outcome is the text, or the words of
    /// the failure, be it the session's or the transport's.
    pub fn react(&self, outcome: Result<String, String>) -> (reaction: Reaction)
        ensures
            reaction@ == protocol::react(self@, outcome_view(outcome)),
    {
        match outcome {
            Ok(text) => Reaction::Show("Message: ".to_owned().concat(text.as_str())),
            Err(failure) => if self.peer_addr.is_none() {
                Reaction::Stop
            } else {
                Reaction::Report(failure)
            },
        }
    }

    /// Takes the one datagram that arrived, from `from`, while the session
    /// listens. A connection request is accepted: the driver transmits the
    /// reply and, once it went out, has the session
    /// [`establish`](Client::establish) the connection. Anything else is an
    /// error, and the driver listens again only if its caller asks for it.
    pub fn wait_for_connection(&self, from: Address, bytes: &[u8]) -> (accepted: Result<
        Accepted,
        Error,
    >)
        ensures
            result_view(accepted) == protocol::wait_for_connection(from, bytes@),
    {
        match Message::from_bytes(bytes) {
            Err(error) => Err(Error::Decode(error)),
            Ok(Message::TryConnect) => Ok(
                Accepted {
                    peer: from,
                    reply: Datagram { to: from, bytes: Message::ConnectionAccepted.into_bytes() },
                },
            ),
            Ok(other) => Err(Error::UnexpectedMessage(other)),
        }
    }

    /// Makes the sender of an accepted request the peer.
    pub fn establish(&mut self, accepted: Accepted)
        ensures
            final(self)@ == protocol::establish(old(self)@, accepted@),
    {
        self.peer_addr = Some(accepted.peer);
    }

    /// Starts to connect to `addr`: hands out the connection request, which
    /// the driver transmits before it waits for the answer. The session's own
    /// address is refused with `SelfConnect`, and then there is nothing to
    /// transmit.
    pub fn connect(&self, addr: Address) -> (request: Result<Datagram, Error>)
        ensures
            result_view(request) == protocol::connect(self@, addr),
    {
        if addr == self.local {
            Err(Error::SelfConnect)
        } else {
            Ok(Datagram { to: addr, bytes: Message::TryConnect.into_bytes() })
        }
    }

    /// Takes a datagram that arrived from `from` while the session waits for
    /// the answer of `target` to its connection request.
    pub fn connect_step(&mut self, target: Address, from: Address, bytes: &[u8]) -> (step: Step<()>)
        ensures
            (final(self)@, step@) == protocol::connect_step(old(self)@, target, from, bytes@),
    {
        if from != target {
            return Step::Continue {
                reply: Datagram { to: from, bytes: Message::Unexpected.into_bytes() },
                required: false,
            };
        }
        match Message::from_bytes(bytes) {
            Err(error) => Step::Done { closing: None, result: Err(Error::Decode(error)) },
            Ok(Message::ConnectionAccepted) => {
                self.peer_addr = Some(target);
                Step::Done { closing: None, result: Ok(()) }
            },
            Ok(Message::Unexpected) => Step::Done {
                closing: None,
                result: Err(Error::HandshakeRejected),
            },
            Ok(other) => Step::Done { closing: None, result: Err(Error::UnexpectedMessage(other)) },
        }
    }
}

} // verus!
