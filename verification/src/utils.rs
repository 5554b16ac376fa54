//! Sinks for items, and what a receiver does with what a channel hands it.

use core::ops::ControlFlow;

use vstd::prelude::*;

verus! {

/// A sink for items of type `T`. `emit` hands it one item and says whether
/// the sink takes more.
pub trait Emit<T> {
    fn emit(&mut self, value: T) -> ControlFlow<()>;
}

/// A sink that can be handed to several tasks.
pub trait SharedEmit<T>: Emit<T> + Clone + Send + 'static {

}

impl<S: Emit<T> + Clone + Send + 'static, T> SharedEmit<T> for S {

}

/// Whether a sink takes more items after a send that ended as `res`: it does
/// after a send that succeeded, and not after one that failed.
pub fn handle_sender_res<E>(res: Result<(), E>) -> (r: ControlFlow<()>)
    ensures
        r is Continue <==> res is Ok,
{
    match res {
        Ok(()) => ControlFlow::Continue(()),
        Err(_) => ControlFlow::Break(()),
    }
}

/// What a subscriber of a multicast channel is handed.
#[derive(Debug)]
pub enum Received<T> {
    /// The next item.
    Item(T),
    /// The notice that the subscriber fell behind and this many items were
    /// dropped for it.
    Lagged(u64),
    /// The notice that the channel is closed.
    Closed,
}

/// What a subscriber does with what it was handed.
#[derive(Debug)]
pub enum LossyStep<T> {
    /// Pass this item on.
    Yield(T),
    /// Warn that this many items were skipped, and receive again.
    Skip(u64),
    /// End the stream.
    End,
}

/// What a subscriber that may lose items does with `received`: it passes an
/// item on, skips ahead over what it missed with a warning, and ends with the
/// channel. Where `on_lag` holds an item, that item stands in for what was
/// missed.
pub fn broadcast_step<T>(received: Received<T>, on_lag: Option<T>) -> (r: LossyStep<T>)
    ensures
        r == (match received {
            Received::Item(item) => LossyStep::Yield(item),
            Received::Closed => LossyStep::End,
            Received::Lagged(n) => match on_lag {
                Some(item) => LossyStep::Yield(item),
                None => LossyStep::Skip(n),
            },
        }),
{
    match received {
        Received::Item(item) => LossyStep::Yield(item),
        Received::Closed => LossyStep::End,
        Received::Lagged(n) => match on_lag {
            Some(item) => LossyStep::Yield(item),
            None => LossyStep::Skip(n),
        },
    }
}

/// Whether a reload was asked for, given what the reload channel handed out:
/// an item or a notice of missed items means that it was, the end of the
/// channel that it was not.
pub fn reload_requested(received: &Received<()>) -> (r: bool)
    ensures
        r == !(*received is Closed),
{
    match received {
        Received::Closed => false,
        _ => true,
    }
}

} // verus!
