//! The command channel: a bounded multi-producer/single-consumer queue from
//! the front-end thread to the audio thread, non-blocking on both ends.
//!
//! The queue itself is `crossbeam_channel`'s; other threads send into it
//! concurrently, so nothing deterministic can be said about what one
//! receive returns — the engine's verified logic takes whatever arrives as
//! an argument instead.

use vstd::prelude::*;
use crate::commands::PluginMessage;

verus! {

#[verifier::external_type_specification]
#[verifier::external_body]
#[verifier::reject_recursive_types(T)]
pub struct ExSender<T>(crossbeam_channel::Sender<T>);

#[verifier::external_type_specification]
#[verifier::external_body]
#[verifier::reject_recursive_types(T)]
pub struct ExReceiver<T>(crossbeam_channel::Receiver<T>);

/// Relies on crossbeam_channel's Clone for Sender: another handle sending
/// into the same channel. Nothing further is promised of it.
pub assume_specification<T>[ <crossbeam_channel::Sender<T> as Clone>::clone ](
    s: &crossbeam_channel::Sender<T>,
) -> (r: crossbeam_channel::Sender<T>)
;

/// Relies on crossbeam_channel::bounded: a FIFO channel of the given
/// capacity, split into its two endpoints.
#[verifier::external_body]
fn command_channel(capacity: usize) -> (r: (
    crossbeam_channel::Sender<PluginMessage>,
    crossbeam_channel::Receiver<PluginMessage>,
))
{
    crossbeam_channel::bounded(capacity)
}

/// Relies on crossbeam_channel::Sender::try_send: queues the message unless
/// the channel is full or disconnected, without ever blocking. Whether it
/// succeeds depends on what other threads have queued, so only the outcome
/// flag is stated.
#[verifier::external_body]
fn try_send_command(
    s: &crossbeam_channel::Sender<PluginMessage>,
    c: PluginMessage,
) -> (accepted: bool)
{
    match s.try_send(c) {
        Ok(()) => true,
        Err(_) => false,
    }
}

/// Relies on crossbeam_channel::Receiver::try_recv: takes the oldest queued
/// message, or nothing when the channel is empty, without ever blocking.
/// What arrives depends on other threads, so no value is promised.
#[verifier::external_body]
fn try_recv_command(
    r: &crossbeam_channel::Receiver<PluginMessage>,
) -> (c: Option<PluginMessage>)
{
    match r.try_recv() {
        Ok(c) => Some(c),
        Err(_) => None,
    }
}

/// How many commands the channel accepts before a producer-side send is
/// dropped. Large enough that rapid clicking does not lose intents.
pub const COMMAND_CAPACITY: usize = 64;

/// The front-end half of the command channel: sends commands without
/// blocking, and counts the ones the full channel dropped so the loss is
/// observable. Cloning it gives another producer; each clone counts its own
/// drops.
#[derive(Clone)]
pub struct CommandSender {
    pub sender: crossbeam_channel::Sender<PluginMessage>,
    pub dropped: u64,
}

impl CommandSender {
    /// Queues a command for the audio thread without blocking. A command the
    /// full channel turns away is dropped, and only counted (saturating).
    pub fn send(&mut self, c: PluginMessage) -> (accepted: bool)
        ensures
            accepted ==> final(self).dropped == old(self).dropped,
            !accepted ==> final(self).dropped as int == if old(self).dropped < u64::MAX {
                old(self).dropped + 1
            } else {
                u64::MAX as int
            },
    {
        let accepted = try_send_command(&self.sender, c);
        if !accepted {
            if self.dropped < u64::MAX {
                self.dropped = self.dropped + 1;
            }
        }
        accepted
    }

    /// How many commands have been dropped by a full channel so far.
    pub fn dropped_count(&self) -> (n: u64)
        ensures
            n == self.dropped,
    {
        self.dropped
    }
}

/// The audio-thread half of the command channel.
pub struct CommandReceiver {
    pub receiver: crossbeam_channel::Receiver<PluginMessage>,
}

impl CommandReceiver {
    /// Drains the channel without blocking and returns the drained commands
    /// in arrival order: until it is empty, or until one whole capacity's
    /// worth has been taken this block. The channel never queues more than
    /// its capacity, so at block start this is a drain to empty; the cap only
    /// bounds the audio thread's work against producers that keep sending
    /// mid-drain. What arrives is decided by other threads, so no particular
    /// content is promised — only that one block takes at most one
    /// capacity's worth.
    pub fn drain(&self) -> (cmds: Vec<PluginMessage>)
        ensures
            cmds@.len() <= COMMAND_CAPACITY,
    {
        let mut cmds: Vec<PluginMessage> = Vec::new();
        let mut budget: usize = COMMAND_CAPACITY;
        while budget > 0
            invariant
                cmds@.len() + budget <= COMMAND_CAPACITY,
            decreases budget,
        {
            match try_recv_command(&self.receiver) {
                Some(c) => {
                    cmds.push(c);
                },
                None => {
                    break;
                },
            }
            budget = budget - 1;
        }
        cmds
    }
}

/// Creates the command channel and wraps its two endpoints.
pub fn new_command_channel() -> (r: (CommandSender, CommandReceiver))
    ensures
        r.0.dropped == 0,
{
    let pair = command_channel(COMMAND_CAPACITY);
    (CommandSender { sender: pair.0, dropped: 0 }, CommandReceiver { receiver: pair.1 })
}

} // verus!
