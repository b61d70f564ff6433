use vstd::prelude::*;
use crate::error::{IError, joined_lines, views_of, listener_outcome};
use crate::stream::{offer, rendezvous, share};
use crossbeam::channel::{Receiver, Sender};
use vstd::std_specs::cmp::PartialEqSpec;

verus! {

/// Identifies one registered listener; handing it to
/// [`StateNotifier::remove_listener`] removes exactly that listener.
pub struct ListenerToken {
    id: u64,
}

impl ListenerToken {
    /// The identity this token was issued for.
    pub closed spec fn id(&self) -> u64 {
        self.id
    }
}

struct ListenerEntry<F> {
    id: u64,
    listener: F,
}

/// A value holder that notifies its listeners whenever the held value changes.
///
/// `F` is the listener callback type and `H` the error handler type.
#[verifier::reject_recursive_types(T)]
pub struct StateNotifier<T, F, H> {
    listeners: Vec<ListenerEntry<F>>,
    next_id: u64,
    on_error: Option<H>,
    mounted: bool,
    state: T,
    value_type: String,
    sender: Option<Sender<T>>,
    receiver: Option<Receiver<T>>,
    registering: bool,
}

/// The messages of the failed outcomes among `outs`, in order.
pub open spec fn failures(outs: Seq<Result<(), String>>) -> Seq<String>
    decreases outs.len(),
{
    if outs.len() == 0 {
        Seq::empty()
    } else {
        let rest = failures(outs.drop_last());
        match outs.last() {
            Ok(_) => rest,
            Err(e) => rest.push(e),
        }
    }
}

/// `b` is `a` with the listener of identity `id` removed, if `a` had one:
/// that entry alone leaves, and every other identity stays or stays absent.
pub open spec fn removal<T, F, H>(a: StateNotifier<T, F, H>, b: StateNotifier<T, F, H>, id: u64) -> bool {
    &&& !a.listener_ids().contains(id) ==> b.entries() == a.entries()
    &&& a.listener_ids().contains(id) ==> exists|k: int|
        0 <= k < a.entries().len() && #[trigger] a.listener_ids()[k] == id && b.entries()
            == a.entries().remove(k)
    &&& !b.listener_ids().contains(id)
    &&& forall|x: u64| x != id ==> (#[trigger] b.listener_ids().contains(x) <==> a.listener_ids().contains(x))
}

impl<T, F, H> StateNotifier<T, F, H> {
    /// The held value.
    pub closed spec fn value(&self) -> T {
        self.state
    }

    /// Whether the notifier has not been disposed.
    pub closed spec fn is_mounted(&self) -> bool {
        self.mounted
    }

    /// The registered listeners with their identities, in registration order.
    pub closed spec fn entries(&self) -> Seq<(u64, F)> {
        self.listeners@.map_values(|e: ListenerEntry<F>| (e.id, e.listener))
    }

    /// The identities of the registered listeners, in registration order.
    pub open spec fn listener_ids(&self) -> Seq<u64> {
        self.entries().map_values(|p: (u64, F)| p.0)
    }

    /// The name of the held value's type, carried by the errors.
    pub closed spec fn value_type(&self) -> Seq<char> {
        self.value_type@
    }

    /// The receiving end of the value stream, once one was requested.
    pub closed spec fn stream(&self) -> Option<Receiver<T>> {
        self.receiver
    }

    /// Whether new values are still published to the stream.
    pub closed spec fn stream_open(&self) -> bool {
        self.sender is Some
    }

    /// The error handler, if one was set.
    pub closed spec fn error_handler(&self) -> Option<H> {
        self.on_error
    }

    /// The identity the next registered listener receives.
    pub closed spec fn next_identity(&self) -> u64 {
        self.next_id
    }

    /// Whether a further listener can be given a fresh identity.
    pub open spec fn can_register(&self) -> bool {
        self.next_identity() < u64::MAX
    }

    /// Whether `id` has never been handed out by this notifier.
    pub open spec fn is_fresh(&self, id: u64) -> bool {
        id >= self.next_identity()
    }

    /// Identities are unique, kept in registration order, and below the next
    /// identity to be handed out; the stream's two ends exist together while
    /// mounted, and the sender is gone once disposed; no registration is in
    /// flight between calls (an exclusive borrow rules out overlapping ones).
    pub closed spec fn wf(&self) -> bool {
        &&& forall|i: int, j: int|
            0 <= i < j < self.listeners@.len() ==> #[trigger] self.listeners@[i].id
                < #[trigger] self.listeners@[j].id
        &&& forall|i: int| 0 <= i < self.listeners@.len() ==> #[trigger] self.listeners@[i].id < self.next_id
        &&& self.mounted ==> (self.sender is Some <==> self.receiver is Some)
        &&& !self.mounted ==> self.sender is None
        &&& !self.registering
    }
}

impl<T: PartialEq + Clone, F: Fn(&T) -> Result<(), String>, H: Fn(&String)> StateNotifier<T, F, H> {
    /// Every registered listener accepts any value, and the error handler
    /// accepts any message.
    pub open spec fn callable(&self) -> bool {
        &&& forall|i: int, v: &T|
            0 <= i < self.entries().len() ==> #[trigger] self.entries()[i].1.requires((v,))
        &&& forall|h: H, m: &String| self.error_handler() == Some(h) ==> #[trigger] h.requires((m,))
    }

    /// The state every operation keeps: well-formed, with callable listeners.
    pub open spec fn inv(&self) -> bool {
        self.wf() && self.callable()
    }

    /// A mounted notifier holding `state`, with no listeners and no error
    /// handler; its errors carry `value_type` as the held type's name.
    pub fn with_value_type(state: T, value_type: String) -> (r: Self)
        ensures
            r.inv(),
            r.value() == state,
            r.is_mounted(),
            r.entries().len() == 0,
            r.error_handler() is None,
            r.value_type() == value_type@,
            r.next_identity() == 0,
            r.stream() is None,
            !r.stream_open(),
    {
        StateNotifier {
            listeners: Vec::new(),
            next_id: 0,
            on_error: None,
            mounted: true,
            state,
            value_type,
            sender: None,
            receiver: None,
            registering: false,
        }
    }

    /// A mounted notifier holding `state`, with no listeners and no error
    /// handler; its errors carry an empty type name.
    pub fn new(state: T) -> (r: Self)
        ensures
            r.inv(),
            r.value() == state,
            r.is_mounted(),
            r.entries().len() == 0,
            r.error_handler() is None,
            r.value_type().len() == 0,
            r.next_identity() == 0,
            r.stream() is None,
            !r.stream_open(),
    {
        Self::with_value_type(state, String::new())
    }

    /// Replaces the held value with `value` and notifies every listener.
    ///
    /// On a disposed notifier nothing changes and the disposed error is
    /// returned. A value equal to the held one changes nothing and succeeds.
    /// Otherwise each listener, in registration order, is called with the new
    /// value, each failure is handed to the error handler, the value is
    /// committed, and the result is a failure joining every listener's message
    /// exactly when some listener failed.
    pub fn set_state(&mut self, value: T) -> (r: Result<(), IError>)
        requires
            old(self).inv(),
            T::obeys_eq_spec(),
        ensures
            final(self).inv(),
            final(self).entries() == old(self).entries(),
            final(self).is_mounted() == old(self).is_mounted(),
            final(self).error_handler() == old(self).error_handler(),
            final(self).value_type() == old(self).value_type(),
            final(self).stream() == old(self).stream(),
            final(self).next_identity() == old(self).next_identity(),
            final(self).stream_open() == old(self).stream_open(),
            !old(self).is_mounted() ==> final(self).value() == old(self).value() && (r matches Err(
                IError::StateNotifierDisposed { state_notifier: n },
            ) && n@ == old(self).value_type()),
            old(self).is_mounted() && old(self).value().eq_spec(&value) ==> final(self).value()
                == old(self).value() && r is Ok,
            old(self).is_mounted() && !old(self).value().eq_spec(&value) ==> final(self).value()
                == value && exists|outs: Seq<Result<(), String>>|
                {
                    &&& outs.len() == old(self).entries().len()
                    &&& forall|i: int|
                        0 <= i < outs.len() ==> old(self).entries()[i].1.ensures(
                            (&value,),
                            #[trigger] outs[i],
                        )
                    &&& (r is Ok <==> forall|i: int| 0 <= i < outs.len() ==> #[trigger] outs[i] is Ok)
                    &&& (r is Ok <==> failures(outs).len() == 0)
                    &&& failures(outs).len() > 0 ==> (r matches Err(
                        IError::StateNotifierListenerError { errors: e, state_notifier: n },
                    ) && e@ == joined_lines(views_of(failures(outs))) && n@
                        == old(self).value_type())
                },
    {
        if !self.mounted {
            return Err(self.disposed_error());
        }
        if self.state.eq(&value) {
            return Ok(());
        }
        match &self.sender {
            Some(sender) => {
                let _ = offer(sender, value.clone());
            },
            None => {},
        }
        let mut errors: Vec<String> = Vec::new();
        let ghost mut outs: Seq<Result<(), String>> = Seq::empty();
        let n = self.listeners.len();
        let mut i: usize = 0;
        while i < n
            invariant
                self.inv(),
                *self == *old(self),
                n == self.listeners@.len(),
                0 <= i <= n,
                outs.len() == i,
                forall|j: int| 0 <= j < i ==> #[trigger] self.entries()[j].1.ensures((&value,), outs[j]),
                errors@ == failures(outs),
                errors@.len() == 0 <==> forall|j: int| 0 <= j < i ==> #[trigger] outs[j] is Ok,
            decreases n - i,
        {
            proof {
                assert(self.entries()[i as int].1 == self.listeners@[i as int].listener);
            }
            let out = (self.listeners[i].listener)(&value);
            let ghost prev = outs;
            proof {
                outs = outs.push(out);
                assert(outs.drop_last() == prev);
            }
            match out {
                Ok(()) => {},
                Err(e) => {
                    self.report(&e);
                    errors.push(e);
                },
            }
            i = i + 1;
        }
        self.state = value;
        assert(self.entries() == old(self).entries());
        listener_outcome(&errors, self.value_type.clone())
    }

    /// Registers `listener` and returns the token that removes it.
    ///
    /// With `fire_immediately`, the listener is first called with the held
    /// value; if that call fails, the listener is removed again and its
    /// message handed to the error handler, and the token is still returned.
    /// A disposed notifier changes nothing and returns the disposed error.
    pub fn add_listener(&mut self, listener: F, fire_immediately: bool) -> (r: Result<ListenerToken, IError>)
        requires
            old(self).inv(),
            old(self).can_register(),
            forall|v: &T| #[trigger] listener.requires((v,)),
        ensures
            final(self).inv(),
            final(self).value() == old(self).value(),
            final(self).is_mounted() == old(self).is_mounted(),
            final(self).error_handler() == old(self).error_handler(),
            final(self).value_type() == old(self).value_type(),
            final(self).stream() == old(self).stream(),
            !old(self).is_mounted() ==> final(self).entries() == old(self).entries()
                && final(self).next_identity() == old(self).next_identity() && (r matches Err(
                IError::StateNotifierDisposed { state_notifier: n },
            ) && n@ == old(self).value_type()),
            old(self).is_mounted() ==> r is Ok,
            old(self).is_mounted() ==> final(self).next_identity() == old(self).next_identity() + 1,
            r matches Ok(tok) ==> tok.id() == old(self).next_identity(),
            old(self).is_mounted() && !fire_immediately ==> final(self).entries()
                == old(self).entries().push((old(self).next_identity(), listener)),
            old(self).is_mounted() && fire_immediately ==> exists|out: Result<(), String>|
                {
                    &&& #[trigger] listener.ensures((&old(self).value(),), out)
                    &&& out is Ok ==> final(self).entries() == old(self).entries().push(
                        (old(self).next_identity(), listener),
                    )
                    &&& out is Err ==> final(self).entries() == old(self).entries()
                },
    {
        if !self.mounted {
            return Err(self.disposed_error());
        }
        if self.registering {
            return Err(IError::ConcurrentModification);
        }
        let id = self.next_id;
        let keep = if fire_immediately {
            self.registering = true;
            let out = listener(&self.state);
            self.registering = false;
            assert(listener.ensures((&old(self).value(),), out));
            match out {
                Ok(()) => true,
                Err(e) => {
                    self.report(&e);
                    false
                },
            }
        } else {
            true
        };
        self.next_id = self.next_id + 1;
        if keep {
            self.listeners.push(ListenerEntry { id, listener });
            assert(self.entries() =~= old(self).entries().push((id, listener)));
        } else {
            assert(self.entries() =~= old(self).entries());
        }
        Ok(ListenerToken { id })
    }

    /// Removes the listener that `token` was issued for, if it is still
    /// registered; any other listener stays.
    pub fn remove_listener(&mut self, token: &ListenerToken)
        requires
            old(self).inv(),
        ensures
            final(self).inv(),
            final(self).value() == old(self).value(),
            final(self).is_mounted() == old(self).is_mounted(),
            final(self).error_handler() == old(self).error_handler(),
            final(self).value_type() == old(self).value_type(),
            final(self).stream() == old(self).stream(),
            final(self).next_identity() == old(self).next_identity(),
            removal(*old(self), *final(self), token.id()),
    {
        let n = self.listeners.len();
        let mut i: usize = 0;
        while i < n
            invariant
                *self == *old(self),
                self.inv(),
                n == self.listeners@.len(),
                0 <= i <= n,
                forall|j: int| 0 <= j < i ==> self.listeners@[j].id != token.id,
            decreases n - i,
        {
            if self.listeners[i].id == token.id {
                self.listeners.remove(i);
                proof {
                    assert(old(self).listener_ids()[i as int] == token.id);
                    assert(self.entries() =~= old(self).entries().remove(i as int));
                    assert forall|id: u64|
                        id != token.id implies (#[trigger] self.listener_ids().contains(id)
                        <==> old(self).listener_ids().contains(id)) by {
                        if old(self).listener_ids().contains(id) {
                            let k = choose|k: int| 0 <= k < old(self).listener_ids().len() && old(self).listener_ids()[k] == id;
                            if k < i {
                                assert(self.listener_ids()[k] == id);
                            } else {
                                assert(self.listener_ids()[k - 1] == id);
                            }
                        }
                        if self.listener_ids().contains(id) {
                            let k = choose|k: int| 0 <= k < self.listener_ids().len() && self.listener_ids()[k] == id;
                            if k < i {
                                assert(old(self).listener_ids()[k] == id);
                            } else {
                                assert(old(self).listener_ids()[k + 1] == id);
                            }
                        }
                    }
                    if self.listener_ids().contains(token.id) {
                        let k = choose|k: int| 0 <= k < self.listener_ids().len() && self.listener_ids()[k] == token.id;
                        if k < i {
                            assert(old(self).listener_ids()[k] == token.id);
                        } else {
                            assert(old(self).listener_ids()[k + 1] == token.id);
                        }
                    }
                }
                return;
            }
            i = i + 1;
        }
        proof {
            if old(self).listener_ids().contains(token.id) {
                let k = choose|k: int| 0 <= k < old(self).listener_ids().len() && old(self).listener_ids()[k] == token.id;
                assert(self.listeners@[k].id == token.id);
            }
        }
    }

    /// The receiving end of the notifier's value stream, a rendezvous channel
    /// that is created on the first request; later requests hand out the same
    /// channel. A disposed notifier returns the disposed error.
    pub fn get_stream(&mut self) -> (r: Result<Receiver<T>, IError>)
        requires
            old(self).inv(),
        ensures
            final(self).inv(),
            final(self).value() == old(self).value(),
            final(self).is_mounted() == old(self).is_mounted(),
            final(self).entries() == old(self).entries(),
            final(self).error_handler() == old(self).error_handler(),
            final(self).value_type() == old(self).value_type(),
            final(self).next_identity() == old(self).next_identity(),
            old(self).stream() is Some ==> final(self).stream() == old(self).stream(),
            old(self).is_mounted() ==> r is Ok && final(self).stream() is Some && final(self).stream_open(),
            !old(self).is_mounted() ==> final(self).stream() == old(self).stream() && (r matches Err(
                IError::StateNotifierDisposed { state_notifier: n },
            ) && n@ == old(self).value_type()),
    {
        if !self.mounted {
            return Err(self.disposed_error());
        }
        match &self.receiver {
            Some(receiver) => Ok(share(receiver)),
            None => {
                let (sender, receiver) = rendezvous();
                let handle = share(&receiver);
                self.sender = Some(sender);
                self.receiver = Some(receiver);
                assert(self.entries() == old(self).entries());
                Ok(handle)
            },
        }
    }

    /// Whether at least one listener is registered; a disposed notifier
    /// returns the disposed error.
    pub fn has_listeners(&self) -> (r: Result<bool, IError>)
        ensures
            self.is_mounted() ==> r == Ok::<bool, IError>(self.entries().len() > 0),
            !self.is_mounted() ==> (r matches Err(IError::StateNotifierDisposed { state_notifier: n })
                && n@ == self.value_type()),
    {
        if !self.mounted {
            return Err(self.disposed_error());
        }
        Ok(self.listeners.len() > 0)
    }

    /// The held value; a disposed notifier returns the disposed error.
    pub fn state(&self) -> (r: Result<&T, IError>)
        ensures
            self.is_mounted() ==> (r matches Ok(v) && *v == self.value()),
            !self.is_mounted() ==> (r matches Err(IError::StateNotifierDisposed { state_notifier: n })
                && n@ == self.value_type()),
    {
        if !self.mounted {
            return Err(self.disposed_error());
        }
        Ok(&self.state)
    }

    /// Whether the notifier has not been disposed.
    pub fn mounted(&self) -> (r: bool)
        ensures
            r == self.is_mounted(),
    {
        self.mounted
    }

    /// Makes `handler` the error handler for later notifications.
    pub fn set_on_error(&mut self, handler: H)
        requires
            old(self).inv(),
            forall|m: &String| #[trigger] handler.requires((m,)),
        ensures
            final(self).inv(),
            final(self).error_handler() == Some(handler),
            final(self).value() == old(self).value(),
            final(self).is_mounted() == old(self).is_mounted(),
            final(self).entries() == old(self).entries(),
            final(self).value_type() == old(self).value_type(),
            final(self).stream() == old(self).stream(),
            final(self).next_identity() == old(self).next_identity(),
    {
        self.on_error = Some(handler);
        assert(self.entries() == old(self).entries());
        assert forall|h: H, m: &String| self.error_handler() == Some(h) implies #[trigger] h.requires((m,)) by {
            assert(h == handler);
        }
    }

    /// Removes every listener and marks the notifier disposed; disposing a
    /// second time changes nothing and returns the disposed error.
    pub fn dispose(&mut self) -> (r: Result<(), IError>)
        requires
            old(self).inv(),
        ensures
            final(self).inv(),
            !final(self).is_mounted(),
            final(self).value() == old(self).value(),
            final(self).error_handler() == old(self).error_handler(),
            final(self).value_type() == old(self).value_type(),
            final(self).stream() == old(self).stream(),
            final(self).next_identity() == old(self).next_identity(),
            !final(self).stream_open(),
            old(self).is_mounted() ==> r is Ok && final(self).entries().len() == 0,
            !old(self).is_mounted() ==> final(self).entries() == old(self).entries() && (r matches Err(
                IError::StateNotifierDisposed { state_notifier: n },
            ) && n@ == old(self).value_type()),
    {
        if !self.mounted {
            return Err(self.disposed_error());
        }
        self.listeners.clear();
        self.sender = None;
        self.mounted = false;
        Ok(())
    }

    /// The error a disposed notifier reports.
    fn disposed_error(&self) -> (r: IError)
        ensures
            r matches IError::StateNotifierDisposed { state_notifier: n } && n@ == self.value_type(),
    {
        IError::StateNotifierDisposed { state_notifier: self.value_type.clone() }
    }

    /// Hands `message` to the error handler, if one is set.
    fn report(&self, message: &String)
        requires
            self.callable(),
    {
        match &self.on_error {
            Some(h) => {
                h(message);
            },
            None => {},
        }
    }
}

} // verus!
