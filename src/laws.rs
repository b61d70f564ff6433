use vstd::prelude::*;
use crate::notifier::{StateNotifier, removal};

verus! {

/// Removing a listener a second time through the same token removes nothing
/// more: the listeners are those left by the first removal, and every other
/// identity is registered exactly when it was before either removal.
pub proof fn lemma_remove_twice<T, F, H>(
    a: StateNotifier<T, F, H>,
    b: StateNotifier<T, F, H>,
    c: StateNotifier<T, F, H>,
    id: u64,
)
    requires
        removal(a, b, id),
        removal(b, c, id),
    ensures
        c.entries() == b.entries(),
        !c.listener_ids().contains(id),
        forall|x: u64| x != id ==> (#[trigger] c.listener_ids().contains(x) <==> a.listener_ids().contains(x)),
{
}

/// A notifier with no listeners has one after registering a listener, and none
/// again after that listener's token is used.
pub proof fn lemma_sole_listener<T, F, H>(
    a: StateNotifier<T, F, H>,
    b: StateNotifier<T, F, H>,
    c: StateNotifier<T, F, H>,
    id: u64,
    listener: F,
)
    requires
        a.entries().len() == 0,
        b.entries() == a.entries().push((id, listener)),
        removal(b, c, id),
    ensures
        b.entries().len() > 0,
        c.entries().len() == 0,
{
    assert(b.listener_ids()[0] == id);
    assert(b.listener_ids().contains(id));
    let k = choose|k: int| 0 <= k < b.entries().len() && #[trigger] b.listener_ids()[k] == id && c.entries()
        == b.entries().remove(k);
    assert(k == 0);
}

/// A token whose listener is not registered (it failed when fired at
/// registration) removes nothing when used, and no listener registered later
/// can share its identity.
pub proof fn lemma_stale_token<T, F, H>(
    b: StateNotifier<T, F, H>,
    c: StateNotifier<T, F, H>,
    id: u64,
)
    requires
        !b.is_fresh(id),
        !b.listener_ids().contains(id),
        removal(b, c, id),
    ensures
        c.entries() == b.entries(),
        forall|x: u64| #[trigger] b.is_fresh(x) ==> x != id,
{
}

} // verus!
