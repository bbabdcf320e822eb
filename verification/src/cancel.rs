use futures::channel::oneshot::Receiver;
use futures::channel::oneshot::Sender;
use vstd::prelude::*;

verus! {

#[verifier::external_type_specification]
#[verifier::external_body]
#[verifier::reject_recursive_types(T)]
pub struct ExSender<T>(Sender<T>);

#[verifier::external_type_specification]
#[verifier::external_body]
#[verifier::reject_recursive_types(T)]
pub struct ExReceiver<T>(Receiver<T>);

#[verifier::external_type_specification]
#[verifier::external_body]
pub struct ExCanceled(futures::channel::oneshot::Canceled);

/// Relies on futures' `oneshot::channel`: it builds a connected one-shot
/// sender/receiver pair. Which messages travel between the two halves is
/// stated nowhere here: the engine promises nothing of a pending
/// cancellation check, only what holds of every outcome of it.
pub assume_specification<T>[ futures::channel::oneshot::channel::<T> ]() -> (r: (
    Sender<T>,
    Receiver<T>,
));

/// Relies on futures' `Receiver::try_recv` for the non-blocking cancellation
/// check: the result is `true` exactly when the paired sender has delivered
/// its one signal. Whether that has happened depends on the caller owning
/// the [`Cancel`] handle, so nothing is promised of the result.
#[verifier::external_body]
pub(crate) fn poll_cancelled(receiver: &mut Receiver<()>) -> bool {
    matches!(receiver.try_recv(), Ok(Some(())))
}

/// Cancellation handle returned by
/// [`run_preemptible`](crate::Streamline::run_preemptible) that can be used
/// to redirect the associated run into its revert process from outside the
/// `next` method.
pub struct Cancel {
    sender: Sender<()>,
}

impl From<Sender<()>> for Cancel {
    fn from(sender: Sender<()>) -> Self {
        Cancel { sender }
    }
}

impl vstd::std_specs::convert::FromSpecImpl<Sender<()>> for Cancel {
    open spec fn obeys_from_spec() -> bool {
        true
    }

    closed spec fn from_spec(sender: Sender<()>) -> Cancel {
        Cancel { sender }
    }
}

impl Cancel {
    /// Requests cancellation of the run this handle was created with,
    /// consuming the handle. The run folds the request into its own sequence
    /// at the next forward transition; the result here only reports whether
    /// the signal could still be delivered: `Err(())` means the paired run
    /// had already terminated and released its receiving half, which has no
    /// effect on that run.
    ///
    /// Relies on futures' `Sender::send`: the one-shot signal is delivered
    /// unless the receiving half is gone.
    #[verifier::external_body]
    pub fn cancel(self) -> Result<(), ()> {
        self.sender.send(())
    }
}

} // verus!
