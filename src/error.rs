use vstd::prelude::*;

verus! {

/// Failures reported by a [`crate::notifier::StateNotifier`].
pub enum IError {
    /// At least one listener failed while the notifier updated its state.
    /// `errors` joins every listener's message with newlines; `state_notifier`
    /// names the held value's type.
    StateNotifierListenerError { errors: String, state_notifier: String },
    /// An operation was attempted on a notifier that has been disposed.
    StateNotifierDisposed { state_notifier: String },
    /// A listener was registered while another registration was in flight.
    ConcurrentModification,
}

/// The messages `msgs`, separated by single newlines.
pub open spec fn joined_lines(msgs: Seq<Seq<char>>) -> Seq<char>
    decreases msgs.len(),
{
    if msgs.len() == 0 {
        Seq::empty()
    } else if msgs.len() == 1 {
        msgs[0]
    } else {
        joined_lines(msgs.drop_last()) + seq!['\n'] + msgs.last()
    }
}

/// The character sequences held by `v`.
pub open spec fn views_of(v: Seq<String>) -> Seq<Seq<char>> {
    v.map_values(|s: String| s@)
}

/// Relies on itertools::join: the elements' `Display` text, in order, with the
/// separator between neighbours (a `String` displays as itself).
#[verifier::external_body]
fn join_lines(msgs: &Vec<String>) -> (r: String)
    ensures
        r@ == joined_lines(views_of(msgs@)),
{
    itertools::join(msgs.iter(), "\n")
}

/// The outcome of one notification pass whose failing listeners reported
/// `errors` (in listener order), for a value type called `value_type`.
pub fn listener_outcome(errors: &Vec<String>, value_type: String) -> (r: Result<(), IError>)
    ensures
        errors@.len() == 0 <==> r is Ok,
        errors@.len() > 0 ==> (r matches Err(IError::StateNotifierListenerError { errors: e, state_notifier: n })
            && e@ == joined_lines(views_of(errors@)) && n@ == value_type@),
{
    if errors.len() == 0 {
        Ok(())
    } else {
        Err(IError::StateNotifierListenerError { errors: join_lines(errors), state_notifier: value_type })
    }
}

} // verus!
