//! Reference-counted lifecycle of the shared discovery resource.
//!
//! The hub owns a subscriber counter and decides, under one lock held by
//! the caller, when the external discovery resource must start and stop:
//! it starts exactly on the transition from zero to one subscriber and
//! stops exactly on the transition back to zero. Each subscription is
//! paired with a ticket whose release is effective at most once, so a
//! disposal path that runs twice cannot stop the resource twice.

use vstd::prelude::*;

verus! {

/// What the caller must do to the external resource after a hub
/// operation.
#[derive(Clone, Copy, Debug)]
pub enum LifecycleAction {
    /// Nothing; other subscribers keep the resource alive.
    NoEffect,
    /// Start the discovery resource: the first subscriber appeared.
    StartDiscovery,
    /// Stop the discovery resource: the last subscriber disappeared.
    StopDiscovery,
}

/// Whether a subscription makes the resource start: exactly when no
/// subscriber was registered before it.
pub open spec fn subscribe_starts(before: nat) -> bool {
    before == 0
}

/// Whether a release makes the resource stop: exactly when the released
/// subscription was the last one registered.
pub open spec fn release_stops(before: nat) -> bool {
    before == 1
}

/// One subscription's claim on the shared resource; releasing it is
/// effective at most once.
pub struct SubscriptionTicket {
    released: bool,
}

impl SubscriptionTicket {
    /// Whether this ticket has already been released.
    pub closed spec fn is_released(self) -> bool {
        self.released
    }
}

/// The shared-resource lifecycle manager: a subscriber counter plus the
/// resource's running flag.
pub struct SubscriptionHub {
    subscribers: u64,
    running: bool,
}

impl SubscriptionHub {
    /// How many subscriptions are live.
    pub closed spec fn subscribers_spec(self) -> nat {
        self.subscribers as nat
    }

    /// Whether the external resource is running.
    pub closed spec fn running_spec(self) -> bool {
        self.running
    }

    /// The resource runs if and only if at least one subscriber is live.
    pub open spec fn wf(self) -> bool {
        self.running_spec() <==> self.subscribers_spec() > 0
    }

    /// A hub with no subscribers and a stopped resource.
    pub fn new() -> (r: Self)
        ensures
            r.wf(),
            r.subscribers_spec() == 0,
            !r.running_spec(),
    {
        SubscriptionHub { subscribers: 0, running: false }
    }

    /// Registers one subscriber. The returned action asks the caller to
    /// start the resource exactly when this is the first subscription;
    /// it never asks for a stop. The returned ticket is unreleased.
    pub fn subscribe(&mut self) -> (r: (SubscriptionTicket, LifecycleAction))
        requires
            old(self).wf(),
            old(self).subscribers_spec() < u64::MAX,
        ensures
            final(self).wf(),
            final(self).subscribers_spec() == old(self).subscribers_spec() + 1,
            final(self).running_spec(),
            !r.0.is_released(),
            r.1 is StartDiscovery <==> subscribe_starts(old(self).subscribers_spec()),
            !(r.1 is StopDiscovery),
    {
        let action = if self.subscribers == 0 {
            LifecycleAction::StartDiscovery
        } else {
            LifecycleAction::NoEffect
        };
        self.subscribers = self.subscribers + 1;
        self.running = true;
        (SubscriptionTicket { released: false }, action)
    }

    /// Releases one subscription. A ticket already released changes
    /// nothing. Otherwise the counter drops by one and the returned
    /// action asks the caller to stop the resource exactly when the
    /// released subscription was the last one: never while another
    /// subscriber remains, and, the ticket now being marked released,
    /// never twice for the same subscription.
    pub fn release(&mut self, ticket: &mut SubscriptionTicket) -> (action: LifecycleAction)
        requires
            old(self).wf(),
            !old(ticket).is_released() ==> old(self).subscribers_spec() > 0,
        ensures
            final(self).wf(),
            final(ticket).is_released(),
            old(ticket).is_released() ==> *final(self) == *old(self) && action is NoEffect,
            !old(ticket).is_released() ==> final(self).subscribers_spec() == old(
                self,
            ).subscribers_spec() - 1,
            !old(ticket).is_released() ==> (action is StopDiscovery <==> release_stops(
                old(self).subscribers_spec(),
            )),
            action is StopDiscovery ==> final(self).subscribers_spec() == 0,
            !(action is StartDiscovery),
    {
        if ticket.released {
            return LifecycleAction::NoEffect;
        }
        ticket.released = true;
        self.subscribers = self.subscribers - 1;
        if self.subscribers == 0 {
            self.running = false;
            LifecycleAction::StopDiscovery
        } else {
            LifecycleAction::NoEffect
        }
    }
}

/// How many stop requests come out of `k` releases of live subscriptions,
/// starting from `n` live subscribers: one for each release that finds
/// exactly one subscriber left.
pub open spec fn stops_in_releases(n: nat, k: nat) -> nat
    decreases k,
{
    if k == 0 {
        0
    } else {
        (if release_stops(n) {
            1nat
        } else {
            0nat
        }) + stops_in_releases((n - 1) as nat, (k - 1) as nat)
    }
}

/// How many start requests come out of `k` subscriptions, starting from
/// `n` live subscribers: one for each subscription that finds no
/// subscriber before it.
pub open spec fn starts_in_subscribes(n: nat, k: nat) -> nat
    decreases k,
{
    if k == 0 {
        0
    } else {
        (if subscribe_starts(n) {
            1nat
        } else {
            0nat
        }) + starts_in_subscribes(n + 1, (k - 1) as nat)
    }
}

/// Law: releasing `k` of `n` live subscriptions, in any order, stops the
/// resource exactly once when every subscription is released and never
/// otherwise — never while one remains, never more than once in total.
/// And when a stop happens at all, it happens on the very last release:
/// the releases before it request no stop.
pub proof fn lemma_release_stops_once(n: nat, k: nat)
    requires
        k <= n,
    ensures
        stops_in_releases(n, k) == (if k == n && n > 0 {
            1nat
        } else {
            0nat
        }),
        k < n ==> stops_in_releases(n, k) == 0,
    decreases k,
{
    if k > 0 {
        lemma_release_stops_once((n - 1) as nat, (k - 1) as nat);
    }
}

/// Law: `k` subscriptions arriving at an idle hub start the resource
/// exactly once, on the first of them, and a hub that already has a
/// subscriber is never asked to start it again.
pub proof fn lemma_subscribe_starts_once(n: nat, k: nat)
    ensures
        n == 0 && k > 0 ==> starts_in_subscribes(n, k) == 1,
        n > 0 ==> starts_in_subscribes(n, k) == 0,
    decreases k,
{
    if k > 0 {
        lemma_subscribe_starts_once(n + 1, (k - 1) as nat);
    }
}

} // verus!
