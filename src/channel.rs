use vstd::prelude::*;
use crate::fault::Fault;

verus! {

#[verifier::external_type_specification]
#[verifier::external_body]
#[verifier::reject_recursive_types(T)]
pub struct ExSender<T>(std::sync::mpsc::Sender<T>);

#[verifier::external_type_specification]
#[verifier::external_body]
#[verifier::reject_recursive_types(T)]
pub struct ExReceiver<T>(std::sync::mpsc::Receiver<T>);

/// Relies on mpsc::Sender::send: it fails only when the receiving end is
/// gone; nothing is promised of which outcome comes.
#[verifier::external_body]
fn channel_send(tx: &std::sync::mpsc::Sender<Vec<u8>>, response: Vec<u8>) -> (sent: bool) {
    tx.send(response).is_ok()
}

/// Relies on mpsc::Receiver::recv: it blocks for the next value sent, and
/// fails only when every sending end is gone.
#[verifier::external_body]
fn channel_recv(rx: &std::sync::mpsc::Receiver<Vec<u8>>) -> (r: Option<Vec<u8>>) {
    rx.recv().ok()
}

/// Hands a framed response to the broker.
pub fn send_engine_response(tx: &std::sync::mpsc::Sender<Vec<u8>>, response: Vec<u8>) -> (r: Result<(), Fault>)
    ensures
        r is Err ==> r == Err::<(), Fault>(Fault::ChannelClosed),
{
    if channel_send(tx, response) {
        Ok(())
    } else {
        Err(Fault::ChannelClosed)
    }
}

/// Waits for the next framed response.
pub fn recv_engine_response(rx: &std::sync::mpsc::Receiver<Vec<u8>>) -> (r: Result<Vec<u8>, Fault>)
    ensures
        r is Err ==> r == Err::<Vec<u8>, Fault>(Fault::ChannelClosed),
{
    match channel_recv(rx) {
        Some(v) => Ok(v),
        None => Err(Fault::ChannelClosed),
    }
}

} // verus!
