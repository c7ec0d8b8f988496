//! The payload of the subscription mutation, and the decision it feeds: the
//! unsubscribe operation reports success only when the mutation's reported
//! resulting state is `Unsubscribed`.

use crate::github::graphql::SubscriptionState;
use vstd::prelude::*;

verus! {

pub struct Payload {
    pub update_subscription: UpdateSubscription,
}

pub struct UpdateSubscription {
    pub subscribable: Option<Subscribable>,
}

pub struct Subscribable {
    pub viewer_subscription: Option<SubscriptionState>,
}

pub ghost struct PayloadV {
    pub viewer_subscription: Option<SubscriptionState>,
}

impl View for Payload {
    type V = PayloadV;

    open spec fn view(&self) -> PayloadV {
        match self.update_subscription.subscribable {
            Some(ref s) => PayloadV { viewer_subscription: s.viewer_subscription },
            None => PayloadV { viewer_subscription: None },
        }
    }
}

impl Payload {
    /// The viewer's subscription state the mutation reported, if any.
    pub fn viewer_subscription(&self) -> (r: Option<SubscriptionState>)
        ensures
            r == self@.viewer_subscription,
    {
        match &self.update_subscription.subscribable {
            Some(s) => s.viewer_subscription,
            None => None,
        }
    }
}

/// The mutation succeeded only if it reported the `Unsubscribed` state.
pub open spec fn unsubscribe_confirmed_spec(p: PayloadV) -> bool {
    p.viewer_subscription == Some(SubscriptionState::Unsubscribed)
}

/// Decides the second half of the unsubscribe operation; the rule is
/// `unsubscribe_confirmed_spec`.
pub fn unsubscribe_confirmed(data: &Payload) -> (b: bool)
    ensures
        b == unsubscribe_confirmed_spec(data@),
{
    match data.viewer_subscription() {
        Some(SubscriptionState::Unsubscribed) => true,
        _ => false,
    }
}

} // verus!
