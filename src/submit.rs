use vstd::prelude::*;

verus! {

#[verifier::external_type_specification]
#[verifier::external_body]
#[verifier::reject_recursive_types(T)]
pub struct ExSender<T>(flume::Sender<T>);

/// Relies on flume::Sender::is_disconnected: whether every receiver of the
/// channel is gone. It depends on other threads, so nothing is stated.
pub assume_specification<T>[ flume::Sender::<T>::is_disconnected ](
    s: &flume::Sender<T>,
) -> bool;

/// The submitting end of the worker's request channel, with a record of the
/// names that the current channel has accepted, oldest first.
pub struct Submitter {
    tx: flume::Sender<String>,
    sent: Ghost<Seq<Seq<char>>>,
}

/// Relies on flume::Sender::send: it fails only when every receiver is gone,
/// and then hands the message back inside its error; on success the message
/// joins the channel's queue. On an unbounded channel it does not block.
#[verifier::external_body]
fn enqueue(s: &mut Submitter, msg: String) -> (r: Result<(), String>)
    ensures
        final(s).sender() == old(s).sender(),
        match r {
            Ok(()) => final(s).sent() == old(s).sent().push(msg@),
            Err(m) => m == msg && final(s).sent() == old(s).sent(),
        },
{
    match s.tx.send(msg) {
        Ok(()) => Ok(()),
        Err(flume::SendError(m)) => Err(m),
    }
}

impl Submitter {
    /// The sender of the current channel.
    pub closed spec fn sender(&self) -> flume::Sender<String> {
        self.tx
    }

    /// The names that the current channel has accepted, oldest first.
    pub closed spec fn sent(&self) -> Seq<Seq<char>> {
        self.sent@
    }

    /// Submits on `tx`, which should come from an unbounded channel: on a
    /// bounded one a full queue makes a submission wait.
    pub fn new(tx: flume::Sender<String>) -> (r: Self)
        ensures
            r.sender() == tx,
            r.sent() == Seq::<Seq<char>>::empty(),
    {
        Submitter { tx, sent: Ghost(Seq::empty()) }
    }

    /// What a submission does once it knows whether the worker behind the
    /// channel is gone: a gone worker is first replaced by the one `spawn`
    /// starts, whose fresh channel then carries `name`; a live one is kept
    /// and `name` joins its queue. An `Err` hands `name` back: the send failed.
    pub fn submit_after_check<F: FnOnce() -> flume::Sender<String>>(
        &mut self,
        disconnected: bool,
        name: String,
        spawn: F,
    ) -> (r: Result<(), String>)
        requires
            spawn.requires(()),
        ensures
            disconnected ==> spawn.ensures((), final(self).sender()),
            !disconnected ==> final(self).sender() == old(self).sender(),
            match r {
                Ok(()) => final(self).sent() == (if disconnected {
                    seq![name@]
                } else {
                    old(self).sent().push(name@)
                }),
                Err(n) => n == name && final(self).sent() == (if disconnected {
                    Seq::<Seq<char>>::empty()
                } else {
                    old(self).sent()
                }),
            },
    {
        if disconnected {
            self.tx = spawn();
            self.sent = Ghost(Seq::empty());
        }
        proof {
            assert(Seq::<Seq<char>>::empty().push(name@) =~= seq![name@]);
        }
        enqueue(self, name)
    }
}

/// Submits `name` for playback. The submitter first asks whether the worker
/// behind its channel has retired; if so it starts one with `spawn` and
/// sends `name` on the new channel, else it sends `name` on the current one.
/// Holding the submitter exclusively for the call, a caller starts at most
/// one worker, and only for a channel seen disconnected. An `Err` hands
/// `name` back: the send failed right after the channel was seen live.
pub fn play_sound<F: FnOnce() -> flume::Sender<String>>(
    s: &mut Submitter,
    name: String,
    spawn: F,
) -> (r: Result<(), String>)
    requires
        spawn.requires(()),
    ensures
        final(s).sender() == old(s).sender() || spawn.ensures((), final(s).sender()),
        match r {
            Ok(()) => final(s).sent() == old(s).sent().push(name@)
                || (spawn.ensures((), final(s).sender()) && final(s).sent() == seq![name@]),
            Err(n) => n == name,
        },
{
    let disconnected = s.tx.is_disconnected();
    s.submit_after_check(disconnected, name, spawn)
}

} // verus!
