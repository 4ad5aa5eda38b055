//! The hand-off queue through which version lists reach the home window
//! from whoever fetches them.

use vstd::prelude::*;
use crate::profile::Version;

verus! {

/// The sending end of a `crossbeam_channel` channel. Nothing is known of
/// its inside.
#[verifier::external_type_specification]
#[verifier::external_body]
#[verifier::reject_recursive_types(T)]
pub struct ExSender<T>(crossbeam_channel::Sender<T>);

/// The receiving end of a `crossbeam_channel` channel. Nothing is known of
/// its inside.
#[verifier::external_type_specification]
#[verifier::external_body]
#[verifier::reject_recursive_types(T)]
pub struct ExReceiver<T>(crossbeam_channel::Receiver<T>);

/// The reason for which `try_recv` handed out nothing: the queue was empty,
/// or every sender is gone.
#[verifier::external_type_specification]
#[verifier::external_body]
pub struct ExTryRecvError(crossbeam_channel::TryRecvError);

/// `crossbeam_channel::unbounded`: a fresh queue without a limit, as its two
/// ends. Nothing is claimed of them.
#[verifier::external_body]
pub(crate) fn open_queue() -> (ends: (
    crossbeam_channel::Sender<Vec<Version>>,
    crossbeam_channel::Receiver<Vec<Version>>,
)) {
    crossbeam_channel::unbounded()
}

/// `Receiver::try_recv`: takes the next message if one is waiting and
/// returns at once if none is. What comes back depends on what other
/// threads have sent, so nothing is claimed of it.
#[verifier::external_body]
pub(crate) fn take_waiting(receiver: &crossbeam_channel::Receiver<Vec<Version>>) -> (r: Result<
    Vec<Version>,
    crossbeam_channel::TryRecvError,
>) {
    receiver.try_recv()
}

} // verus!
