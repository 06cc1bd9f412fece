use std::sync::mpsc::{Receiver, Sender};
use vstd::prelude::*;

verus! {

/// The sending half of std's mpsc channel, carried through unread.
#[verifier::external_type_specification]
#[verifier::external_body]
#[verifier::reject_recursive_types(T)]
pub struct ExSender<T>(Sender<T>);

/// The receiving half of std's mpsc channel, carried through unread.
#[verifier::external_type_specification]
#[verifier::external_body]
#[verifier::reject_recursive_types(T)]
pub struct ExReceiver<T>(Receiver<T>);

/// Relies on `std::sync::mpsc::channel` for a connected sender and receiver.
#[verifier::external_body]
fn open_channel() -> (Sender<String>, Receiver<String>) {
    std::sync::mpsc::channel()
}

/// Relies on `Sender::clone` for another sender into the same channel.
#[verifier::external_body]
fn clone_sender(tx: &Sender<String>) -> Sender<String> {
    tx.clone()
}

/// Relies on `Receiver::try_iter` to take, without waiting, the messages
/// that are in the channel, oldest first.
#[verifier::external_body]
fn take_pending(rx: &Receiver<String>) -> Vec<String> {
    rx.try_iter().collect()
}

/// The texts of `parts`, one after the other.
pub open spec fn joined(parts: Seq<String>) -> Seq<char>
    decreases parts.len(),
{
    if parts.len() == 0 {
        Seq::empty()
    } else {
        joined(parts.drop_last()) + parts.last()@
    }
}

/// Joins the texts of `parts` in their order.
pub fn join_messages(parts: &Vec<String>) -> (r: String)
    ensures
        r@ == joined(parts@),
{
    let mut r = String::new();
    let mut i: usize = 0;
    while i < parts.len()
        invariant
            i <= parts@.len(),
            r@ == joined(parts@.subrange(0, i as int)),
        decreases parts@.len() - i,
    {
        r.append(parts[i].as_str());
        i += 1;
        assert(parts@.subrange(0, i as int).drop_last() =~= parts@.subrange(0, i - 1));
    }
    assert(parts@.subrange(0, i as int) =~= parts@);
    r
}

/// Collects the text that a script prints, through a channel.
pub struct PrintBuffer {
    rx: Receiver<String>,
    tx: Sender<String>,
}

impl PrintBuffer {
    /// A buffer with an empty channel.
    pub fn new() -> PrintBuffer {
        let (tx, rx) = open_channel();
        PrintBuffer { rx: rx, tx: tx }
    }

    /// A sender into the buffer's channel.
    pub fn get_tx(&self) -> Sender<String> {
        clone_sender(&self.tx)
    }

    /// Takes the text sent so far and joins it in the order it was sent.
    pub fn get_buffer(&self) -> String {
        let parts = take_pending(&self.rx);
        join_messages(&parts)
    }
}

} // verus!
