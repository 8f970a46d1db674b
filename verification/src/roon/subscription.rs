//! What the queue subscription guarantees: asking twice for the same zone
//! subscribes once, and asking for another zone gives up the old
//! subscription before it takes the new one.

use vstd::prelude::*;

use crate::roon::client::subscribe_step;
use crate::roon::event::EffectView;
use crate::roon::model::ClientView;
use crate::roon::queue::subscribe_requests;
use crate::roon::queue::QueueRequestView;
use crate::roon::queue::QUEUE_MAX_ITEMS;
use crate::roon::queue::QUEUE_WAIT_MS;

verus! {

/// How many of the effects subscribe to a queue.
pub open spec fn subscribe_calls(effects: Seq<EffectView>) -> nat
    decreases effects.len(),
{
    if effects.len() == 0 {
        0
    } else {
        let rest = subscribe_calls(effects.drop_last());
        match effects.last() {
            EffectView::Queue(QueueRequestView::Subscribe { zone_id, max_items }) => rest + 1,
            _ => rest,
        }
    }
}

/// How many of the effects give up a queue subscription.
pub open spec fn unsubscribe_calls(effects: Seq<EffectView>) -> nat
    decreases effects.len(),
{
    if effects.len() == 0 {
        0
    } else {
        let rest = unsubscribe_calls(effects.drop_last());
        match effects.last() {
            EffectView::Queue(QueueRequestView::Unsubscribe) => rest + 1,
            _ => rest,
        }
    }
}

/// The effects of subscribing to `id` from nothing.
pub open spec fn fresh_subscription(id: Seq<char>) -> Seq<EffectView> {
    seq![
        EffectView::Queue(QueueRequestView::Subscribe { zone_id: id, max_items: QUEUE_MAX_ITEMS }),
        EffectView::Queue(QueueRequestView::Await { timeout_ms: QUEUE_WAIT_MS }),
    ]
}

/// The effects of subscribing to `id` in place of another zone.
pub open spec fn switched_subscription(id: Seq<char>) -> Seq<EffectView> {
    seq![
        EffectView::Queue(QueueRequestView::Unsubscribe),
        EffectView::Queue(QueueRequestView::Subscribe { zone_id: id, max_items: QUEUE_MAX_ITEMS }),
        EffectView::Queue(QueueRequestView::Await { timeout_ms: QUEUE_WAIT_MS }),
    ]
}

/// A fresh subscription subscribes once and gives up nothing.
pub proof fn lemma_fresh_counts(id: Seq<char>)
    ensures
        subscribe_calls(fresh_subscription(id)) == 1,
        unsubscribe_calls(fresh_subscription(id)) == 0,
{
    let effects = fresh_subscription(id);
    let one = effects.drop_last();
    assert(one.drop_last() =~= Seq::<EffectView>::empty());
    assert(one.last() == effects[0]);
    assert(effects.last() == effects[1]);
    assert(subscribe_calls(one.drop_last()) == 0);
    assert(unsubscribe_calls(one.drop_last()) == 0);
    assert(subscribe_calls(one) == 1);
    assert(unsubscribe_calls(one) == 0);
}

/// A switched subscription gives up once, then subscribes once.
pub proof fn lemma_switched_counts(id: Seq<char>)
    ensures
        subscribe_calls(switched_subscription(id)) == 1,
        unsubscribe_calls(switched_subscription(id)) == 1,
{
    let effects = switched_subscription(id);
    let two = effects.drop_last();
    let one = two.drop_last();
    assert(one.drop_last() =~= Seq::<EffectView>::empty());
    assert(one.last() == effects[0]);
    assert(two.last() == effects[1]);
    assert(effects.last() == effects[2]);
    assert(subscribe_calls(one.drop_last()) == 0);
    assert(unsubscribe_calls(one.drop_last()) == 0);
    assert(subscribe_calls(one) == 0);
    assert(unsubscribe_calls(one) == 1);
    assert(subscribe_calls(two) == 1);
    assert(unsubscribe_calls(two) == 1);
}

/// Asking for the queue of the same zone twice in a row subscribes
/// exactly once: the second request changes nothing and asks for nothing.
/// (With the zone subscribed already, neither request asks for anything.)
pub proof fn law_same_zone_subscribes_once(state: ClientView, id: Seq<char>)
    requires
        state.has_transport,
    ensures
        ({
            let (first, asked) = subscribe_step(state, id);
            let (second, asked_again) = subscribe_step(first, id);
            &&& second == first
            &&& asked_again == Seq::<EffectView>::empty()
            &&& first.queue.active == Some(id)
            &&& state.queue.active != Some(id) ==> subscribe_calls(asked + asked_again) == 1
            &&& state.queue.active == Some(id) ==> asked == Seq::<EffectView>::empty()
        }),
{
    let (first, asked) = subscribe_step(state, id);
    let (second, asked_again) = subscribe_step(first, id);
    assert(subscribe_requests(first.queue.active, id) =~= Seq::<QueueRequestView>::empty());
    assert(asked_again =~= Seq::<EffectView>::empty());
    assert(asked + asked_again =~= asked);
    match state.queue.active {
        Some(current) => {
            if current == id {
                assert(asked =~= Seq::<EffectView>::empty());
            } else {
                assert(asked =~= switched_subscription(id));
                lemma_switched_counts(id);
            }
        },
        None => {
            assert(asked =~= fresh_subscription(id));
            lemma_fresh_counts(id);
        },
    }
}

/// Asking for the queue of a zone while another zone is subscribed gives
/// up the old subscription once, then subscribes once, in that order, and
/// leaves the new zone as the only subscribed one, with nothing cached.
pub proof fn law_switch_unsubscribes_first(state: ClientView, current: Seq<char>, id: Seq<char>)
    requires
        state.has_transport,
        state.queue.active == Some(current),
        current != id,
    ensures
        ({
            let (after, asked) = subscribe_step(state, id);
            &&& asked == switched_subscription(id)
            &&& unsubscribe_calls(asked) == 1
            &&& subscribe_calls(asked) == 1
            &&& after.queue.active == Some(id)
            &&& after.queue.items is None
        }),
{
    let (after, asked) = subscribe_step(state, id);
    assert(asked =~= switched_subscription(id));
    lemma_switched_counts(id);
}

} // verus!
