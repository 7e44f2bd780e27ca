//! The messages of the protocol and their encoding as datagrams.

use vstd::prelude::*;
use vstd::slice::slice_subrange;
use vstd::std_specs::cmp::PartialEqSpecImpl;
use vstd::std_specs::convert::FromSpecImpl;
use vstd::string::StringExecFns;
use vstd::utf8::*;

verus! {

/// First byte of a control message.
pub const KIND_CONTROL: u8 = 0;

/// First byte of a text message.
pub const KIND_TEXT: u8 = 1;

/// Last byte of a text message.
pub const TERMINATOR: u8 = 0;

/// Second byte of a connection request.
pub const CODE_TRY_CONNECT: u8 = 1;

/// Second byte of the answer that accepts a connection request.
pub const CODE_CONNECTION_ACCEPTED: u8 = 2;

/// Second byte of the rejection sent to a stranger.
pub const CODE_UNEXPECTED: u8 = 3;

/// Second byte of the request to end the session.
pub const CODE_DISCONNECT: u8 = 4;

/// Second byte of the answer to a request to end the session.
pub const CODE_DISCONNECT_ACK: u8 = 5;

/// The length of a control message. An operation that takes none but control
/// messages need not read more of a datagram.
pub const CONTROL_LEN: usize = 2;

/// The length of the longest datagram that the transport delivers.
pub const MAX_DATAGRAM_LEN: usize = 65535;

/// A message of the protocol.
#[derive(Debug)]
pub enum Message {
    /// Asks the receiver to become the sender's peer.
    TryConnect,
    /// Accepts a `TryConnect`.
    ConnectionAccepted,
    /// Tells the receiver that the sender is not its peer.
    Unexpected,
    /// Asks the peer to end the session.
    Disconnect,
    /// Confirms a `Disconnect`.
    DisconnectAck,
    /// A line of chat.
    Text(String),
}

/// A message as a mathematical value: the text is a sequence of characters.
pub ghost enum MessageView {
    TryConnect,
    ConnectionAccepted,
    Unexpected,
    Disconnect,
    DisconnectAck,
    Text(Seq<char>),
}

impl View for Message {
    type V = MessageView;

    open spec fn view(&self) -> MessageView {
        match self {
            Message::TryConnect => MessageView::TryConnect,
            Message::ConnectionAccepted => MessageView::ConnectionAccepted,
            Message::Unexpected => MessageView::Unexpected,
            Message::Disconnect => MessageView::Disconnect,
            Message::DisconnectAck => MessageView::DisconnectAck,
            Message::Text(text) => MessageView::Text(text@),
        }
    }
}

impl Clone for Message {
    fn clone(&self) -> (copy: Message)
        ensures
            copy@ == self@,
    {
        match self {
            Message::TryConnect => Message::TryConnect,
            Message::ConnectionAccepted => Message::ConnectionAccepted,
            Message::Unexpected => Message::Unexpected,
            Message::Disconnect => Message::Disconnect,
            Message::DisconnectAck => Message::DisconnectAck,
            Message::Text(text) => Message::Text(text.clone()),
        }
    }
}

impl PartialEq for Message {
    fn eq(&self, other: &Message) -> (equal: bool) {
        match self {
            Message::TryConnect => matches!(other, Message::TryConnect),
            Message::ConnectionAccepted => matches!(other, Message::ConnectionAccepted),
            Message::Unexpected => matches!(other, Message::Unexpected),
            Message::Disconnect => matches!(other, Message::Disconnect),
            Message::DisconnectAck => matches!(other, Message::DisconnectAck),
            Message::Text(mine) => match other {
                Message::Text(theirs) => mine.eq(theirs),
                _ => false,
            },
        }
    }
}

impl PartialEqSpecImpl for Message {
    open spec fn obeys_eq_spec() -> bool {
        true
    }

    open spec fn eq_spec(&self, other: &Message) -> bool {
        self@ == other@
    }
}

impl Eq for Message {}

impl From<String> for Message {
    fn from(value: String) -> (message: Message) {
        Message::Text(value)
    }
}

impl FromSpecImpl<String> for Message {
    open spec fn obeys_from_spec() -> bool {
        true
    }

    open spec fn from_spec(value: String) -> Message {
        Message::Text(value)
    }
}

impl<'a> From<&'a str> for Message {
    fn from(value: &'a str) -> (message: Message)
        ensures
            message@ == MessageView::Text(value@),
    {
        Message::Text(value.to_owned())
    }
}

impl<'a> FromSpecImpl<&'a str> for Message {
    open spec fn obeys_from_spec() -> bool {
        false
    }

    open spec fn from_spec(value: &'a str) -> Message {
        Message::Text(choose|text: String| text@ == value@)
    }
}

/// Why a datagram is not a message.
#[derive(Debug, Clone, Copy, PartialEq, Eq, Structural)]
pub enum DecodeError {
    /// The datagram is empty, or its first byte names no kind of message.
    UnknownMessageType,
    /// The datagram is a control message whose second byte is missing or
    /// names no control message.
    UnknownControlMessage,
}

/// The datagram that carries `message`.
pub open spec fn encode(message: MessageView) -> Seq<u8> {
    match message {
        MessageView::TryConnect => seq![KIND_CONTROL, CODE_TRY_CONNECT],
        MessageView::ConnectionAccepted => seq![KIND_CONTROL, CODE_CONNECTION_ACCEPTED],
        MessageView::Unexpected => seq![KIND_CONTROL, CODE_UNEXPECTED],
        MessageView::Disconnect => seq![KIND_CONTROL, CODE_DISCONNECT],
        MessageView::DisconnectAck => seq![KIND_CONTROL, CODE_DISCONNECT_ACK],
        MessageView::Text(text) => seq![KIND_TEXT] + encode_utf8(text) + seq![TERMINATOR],
    }
}

/// The control message that the code `code` selects.
pub open spec fn decode_control(code: u8) -> Result<MessageView, DecodeError> {
    if code == CODE_TRY_CONNECT {
        Ok(MessageView::TryConnect)
    } else if code == CODE_CONNECTION_ACCEPTED {
        Ok(MessageView::ConnectionAccepted)
    } else if code == CODE_UNEXPECTED {
        Ok(MessageView::Unexpected)
    } else if code == CODE_DISCONNECT {
        Ok(MessageView::Disconnect)
    } else if code == CODE_DISCONNECT_ACK {
        Ok(MessageView::DisconnectAck)
    } else {
        Err(DecodeError::UnknownControlMessage)
    }
}

/// The bytes of a text datagram that hold the text: all but the first byte
/// and the last, which is taken for the terminator whatever it is. A datagram
/// that ends with its first byte holds no text.
pub open spec fn payload(bytes: Seq<u8>) -> Seq<u8>
    recommends
        bytes.len() >= 1,
{
    if bytes.len() >= 2 {
        bytes.subrange(1, bytes.len() - 1)
    } else {
        bytes.subrange(1, 1)
    }
}

/// The text that `String::from_utf8_lossy` makes of bytes that are not
/// well-formed UTF-8: every ill-formed stretch has become U+FFFD.
pub uninterp spec fn repaired_text(bytes: Seq<u8>) -> Seq<char>;

/// The text that a payload stands for: the characters it encodes where it is
/// well-formed UTF-8, and the repaired text where it is not.
pub open spec fn payload_text(bytes: Seq<u8>) -> Seq<char> {
    if valid_utf8(bytes) {
        decode_utf8(bytes)
    } else {
        repaired_text(bytes)
    }
}

/// What decoding returned, as a mathematical value.
pub open spec fn decoded_view(decoded: Result<Message, DecodeError>) -> Result<
    MessageView,
    DecodeError,
> {
    match decoded {
        Ok(message) => Ok(message@),
        Err(error) => Err(error),
    }
}

/// The message that the datagram `bytes` carries, or why it carries none.
pub open spec fn decode(bytes: Seq<u8>) -> Result<MessageView, DecodeError> {
    if bytes.len() == 0 {
        Err(DecodeError::UnknownMessageType)
    } else if bytes[0] == KIND_CONTROL {
        if bytes.len() < 2 {
            Err(DecodeError::UnknownControlMessage)
        } else {
            decode_control(bytes[1])
        }
    } else if bytes[0] == KIND_TEXT {
        Ok(MessageView::Text(payload_text(payload(bytes))))
    } else {
        Err(DecodeError::UnknownMessageType)
    }
}

/// Calls `String::from_utf8_lossy` and takes ownership of what it returns.
/// Trusted: on well-formed UTF-8 the result is the text that the bytes
/// encode; on anything else it is the repaired text, which depends on the
/// bytes alone.
#[verifier::external_body]
fn text_from_utf8_lossy(bytes: &[u8]) -> (text: String)
    ensures
        valid_utf8(bytes@) ==> text@ == decode_utf8(bytes@),
        !valid_utf8(bytes@) ==> text@ == repaired_text(bytes@),
{
    String::from_utf8_lossy(bytes).into_owned()
}

/// The line that shows `message` to a reader.
pub open spec fn description(message: MessageView) -> Seq<char> {
    match message {
        MessageView::TryConnect => "Connection request"@,
        MessageView::ConnectionAccepted => "Succesfully connected"@,
        MessageView::Unexpected => "Unexpected message"@,
        MessageView::Disconnect => "Disconnect"@,
        MessageView::DisconnectAck => "Succesfully disconnected"@,
        MessageView::Text(text) => "Message: "@ + text,
    }
}

/// Decoding the datagram of a message gives the message back. This holds of
/// the control messages and of every text: what a `String` holds is
/// well-formed UTF-8, and the terminator is the one byte that decoding drops.
pub proof fn lemma_decode_encode(message: MessageView)
    ensures
        decode(encode(message)) == Ok::<MessageView, DecodeError>(message),
{
    if let MessageView::Text(text) = message {
        assert(payload(encode(message)) =~= encode_utf8(text));
        encode_utf8_valid_utf8(text);
        encode_utf8_decode_utf8(text);
    }
}

/// No two messages have the same datagram.
pub proof fn lemma_encode_injective(one: MessageView, other: MessageView)
    requires
        encode(one) == encode(other),
    ensures
        one == other,
{
    lemma_decode_encode(one);
    lemma_decode_encode(other);
}

/// A control message is read off the first two bytes of a datagram: what
/// follows them changes nothing. Of a text datagram the first two bytes still
/// tell that it is a text, though not which.
pub proof fn lemma_decode_control_len(bytes: Seq<u8>)
    requires
        bytes.len() >= CONTROL_LEN,
    ensures
        (match decode(bytes) {
            Ok(MessageView::Text(_)) => decode(bytes.take(CONTROL_LEN as int)) matches Ok(
                MessageView::Text(_),
            ),
            decoded => decode(bytes.take(CONTROL_LEN as int)) == decoded,
        }),
{
}

impl Message {
    /// The line that shows the message to a reader.
    pub fn describe(&self) -> (line: String)
        ensures
            line@ == description(self@),
    {
        match self {
            Message::TryConnect => "Connection request".to_owned(),
            Message::ConnectionAccepted => "Succesfully connected".to_owned(),
            Message::Unexpected => "Unexpected message".to_owned(),
            Message::Disconnect => "Disconnect".to_owned(),
            Message::DisconnectAck => "Succesfully disconnected".to_owned(),
            Message::Text(text) => "Message: ".to_owned().concat(text.as_str()),
        }
    }

    /// Encodes the message as a datagram.
    pub fn into_bytes(self) -> (bytes: Vec<u8>)
        ensures
            bytes@ == encode(self@),
    {
        match self {
            Message::TryConnect => vec![KIND_CONTROL, CODE_TRY_CONNECT],
            Message::ConnectionAccepted => vec![KIND_CONTROL, CODE_CONNECTION_ACCEPTED],
            Message::Unexpected => vec![KIND_CONTROL, CODE_UNEXPECTED],
            Message::Disconnect => vec![KIND_CONTROL, CODE_DISCONNECT],
            Message::DisconnectAck => vec![KIND_CONTROL, CODE_DISCONNECT_ACK],
            Message::Text(text) => {
                let mut bytes: Vec<u8> = vec![KIND_TEXT];
                let mut encoded: Vec<u8> = text.as_str().as_bytes_vec();
                bytes.append(&mut encoded);
                bytes.push(TERMINATOR);
                bytes
            },
        }
    }

    /// Decodes a datagram. Every input has an answer: a datagram that is no
    /// message is reported, never a reason to stop.
    pub fn from_bytes(value: &[u8]) -> (decoded: Result<Message, DecodeError>)
        ensures
            decoded_view(decoded) == decode(value@),
    {
        let len: usize = value.len();
        if len == 0 {
            return Err(DecodeError::UnknownMessageType);
        }
        let kind: u8 = value[0];
        if kind == KIND_CONTROL {
            if len < 2 {
                return Err(DecodeError::UnknownControlMessage);
            }
            let code: u8 = value[1];
            if code == CODE_TRY_CONNECT {
                Ok(Message::TryConnect)
            } else if code == CODE_CONNECTION_ACCEPTED {
                Ok(Message::ConnectionAccepted)
            } else if code == CODE_UNEXPECTED {
                Ok(Message::Unexpected)
            } else if code == CODE_DISCONNECT {
                Ok(Message::Disconnect)
            } else if code == CODE_DISCONNECT_ACK {
                Ok(Message::DisconnectAck)
            } else {
                Err(DecodeError::UnknownControlMessage)
            }
        } else if kind == KIND_TEXT {
            let end: usize = if len >= 2 {
                len - 1
            } else {
                1
            };
            Ok(Message::Text(text_from_utf8_lossy(slice_subrange(value, 1, end))))
        } else {
            Err(DecodeError::UnknownMessageType)
        }
    }
}

} // verus!
