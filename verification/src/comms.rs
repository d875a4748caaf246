//! Framing of the messages that the vehicle sends over its UART link, and
//! the actions it can be asked to perform.
use vstd::prelude::*;

verus! {

/// Largest message, header included.
pub const UART_TX_MSG_SIZE: usize = 500;

/// Depth of the queue of outgoing messages.
pub const UART_TX_QUEUE_DEPTH: usize = 10;

/// Header length: four magic bytes, the length byte and the id byte.
pub const UART_HEADER_LEN: usize = 6;

/// Identifier of a text message.
pub const UART_TEXT_MESSAGE_ID: u8 = 5;

/// The magic bytes that start every message.
pub const UART_HEADER: [u8; 4] = [0x11, 0x0F, 0xFF, 0x00];

/// The buffer of one outgoing message.
pub type UartTxMsg = heapless::Vec<u8, UART_TX_MSG_SIZE>;

#[verifier::external_type_specification]
#[verifier::external_body]
#[verifier::reject_recursive_types(T)]
pub struct ExHeaplessVec<T, const N: usize>(heapless::Vec<T, N>);

/// The bytes that an outgoing message buffer holds, in order.
pub uninterp spec fn uart_msg_contents(msg: heapless::Vec<u8, UART_TX_MSG_SIZE>) -> Seq<u8>;

/// `heapless::Vec::new`: a buffer that holds nothing.
#[verifier::external_body]
fn uart_msg_new() -> (r: UartTxMsg)
    ensures
        uart_msg_contents(r) == Seq::<u8>::empty(),
{
    heapless::Vec::new()
}

/// `heapless::Vec::push`: appends `item` when the buffer holds fewer than
/// its capacity of bytes, else fails with `item` and changes nothing.
#[verifier::external_body]
fn uart_msg_push(msg: &mut UartTxMsg, item: u8) -> (r: Result<(), u8>)
    ensures
        uart_msg_contents(*old(msg)).len() < UART_TX_MSG_SIZE ==> r is Ok,
        uart_msg_contents(*old(msg)).len() < UART_TX_MSG_SIZE ==> uart_msg_contents(*final(msg))
            == uart_msg_contents(*old(msg)).push(item),
        uart_msg_contents(*old(msg)).len() >= UART_TX_MSG_SIZE ==> (r matches Err(x) && x == item),
        uart_msg_contents(*old(msg)).len() >= UART_TX_MSG_SIZE ==> uart_msg_contents(*final(msg))
            == uart_msg_contents(*old(msg)),
{
    msg.push(item)
}

/// `heapless::Vec::extend_from_slice`: appends all of `other` when the result
/// fits within the capacity, else fails and changes nothing.
#[verifier::external_body]
fn uart_msg_extend(msg: &mut UartTxMsg, other: &[u8]) -> (r: Result<(), ()>)
    ensures
        uart_msg_contents(*old(msg)).len() + other@.len() <= UART_TX_MSG_SIZE ==> r is Ok,
        uart_msg_contents(*old(msg)).len() + other@.len() <= UART_TX_MSG_SIZE ==> uart_msg_contents(
        *final(msg)) == uart_msg_contents(*old(msg)) + other@,
        uart_msg_contents(*old(msg)).len() + other@.len() > UART_TX_MSG_SIZE ==> r is Err,
        uart_msg_contents(*old(msg)).len() + other@.len() > UART_TX_MSG_SIZE ==> uart_msg_contents(
        *final(msg)) == uart_msg_contents(*old(msg)),
{
    msg.extend_from_slice(other)
}

/// The text message that carries `payload`: magic bytes, total length,
/// message identifier, payload.
pub open spec fn text_message(payload: Seq<u8>) -> Seq<u8> {
    seq![0x11u8, 0x0Fu8, 0xFFu8, 0x00u8, (UART_HEADER_LEN + payload.len()) as u8, UART_TEXT_MESSAGE_ID]
        + payload
}

/// Frames `payload` as a text message, or gives `None` when the message
/// would not fit its one-byte length or the transmit buffer, in which case
/// it is dropped.
pub fn frame_text_message(payload: &[u8]) -> (r: Option<UartTxMsg>)
    ensures
        r is None <==> UART_HEADER_LEN + payload@.len() > 255,
        r matches Some(msg) ==> uart_msg_contents(msg) == text_message(payload@),
{
    if payload.len() > 255 - UART_HEADER_LEN {
        return None;
    }
    let total_len = UART_HEADER_LEN + payload.len();
    if total_len > 255 || total_len > UART_TX_MSG_SIZE {
        return None;
    }
    let header = UART_HEADER;
    let mut msg = uart_msg_new();
    let _ = uart_msg_extend(&mut msg, &header);
    let _ = uart_msg_push(&mut msg, total_len as u8);
    let _ = uart_msg_push(&mut msg, UART_TEXT_MESSAGE_ID);
    let _ = uart_msg_extend(&mut msg, payload);
    assert(header@ =~= seq![0x11u8, 0x0Fu8, 0xFFu8, 0x00u8]);
    assert(uart_msg_contents(msg) =~= text_message(payload@));
    Some(msg)
}

/// An action that the vehicle can be asked to perform.
#[derive(Debug, Clone, Copy, PartialEq, Eq, Structural)]
pub enum Action {
    Noop,
    SetMotorSpeeds,
}

impl Action {
    /// The code of the action on the link.
    pub fn code(&self) -> (r: u8)
        ensures
            *self == Action::Noop ==> r == 0,
            *self == Action::SetMotorSpeeds ==> r == 2,
    {
        match self {
            Action::Noop => 0,
            Action::SetMotorSpeeds => 2,
        }
    }
}

} // verus!
