//! The lifecycle and delivery contract of the native observation bridge.
//!
//! A process holds at most one live subscription to the native notification
//! mechanism.  The bridge records the process-wide lifecycle state, issues a
//! single-owner handle for each successful subscription, and appends every
//! payload delivered while observing -- in arrival order, one normalized
//! record per payload -- to its delivery log.

use vstd::prelude::*;

use crate::event::{marshal_event, marshal_spec, FocusEvent, FocusEventModel, RawEvent,
    RawEventModel};

verus! {

/// Process-wide lifecycle of the native event pump and subscription.
///
/// The only transitions are `Uninitialized -> Running` (a successful start),
/// `Stopped -> Running` (a fresh start after a stop), and
/// `Running -> Stopped` (a stop); a handle never re-enters `Running` by
/// itself.
#[derive(Clone, Copy, PartialEq, Eq, Structural, Debug)]
pub enum BridgeState {
    Uninitialized,
    Running,
    Stopped,
}

/// Why a lifecycle operation was refused.
#[derive(Clone, Copy, PartialEq, Eq, Structural, Debug)]
pub enum BridgeError {
    /// Native registration is not possible: a subscription already exists in
    /// this process, or the native mechanism itself refused to register.
    SubscriptionUnavailable,
    /// The handle passed to a stop does not belong to a live subscription:
    /// it was stopped already, or it outlived its subscription.
    AlreadyStopped,
}

/// An active subscription, owned by exactly one holder.
///
/// The handle is not copyable and is consumed by `stop_observing`, so
/// releasing the same subscription twice through the same handle is
/// impossible by type; a stale handle kept across a restart is rejected at
/// run time by its token.
#[derive(PartialEq, Eq, Structural, Debug)]
pub struct ObserverHandle {
    pub token: u64,
}

/// Mathematical model of the bridge: lifecycle state, the normalized records
/// delivered so far in order, and the subscription tokens.
pub struct BridgeModel {
    pub state: BridgeState,
    pub delivered: Seq<FocusEventModel>,
    pub next_token: u64,
    pub active_token: u64,
}

/// What one native notification does to the delivery log: while observing it
/// appends exactly the normalized form of the payload, otherwise it leaves
/// the log untouched.
pub open spec fn dispatch_step(
    delivered: Seq<FocusEventModel>,
    state: BridgeState,
    raw: RawEventModel,
) -> Seq<FocusEventModel> {
    if state is Running {
        delivered.push(marshal_spec(raw))
    } else {
        delivered
    }
}

/// The delivery log after a whole sequence of native notifications arrives,
/// first element first.
pub open spec fn dispatch_fold(
    delivered: Seq<FocusEventModel>,
    state: BridgeState,
    raws: Seq<RawEventModel>,
) -> Seq<FocusEventModel>
    decreases raws.len(),
{
    if raws.len() == 0 {
        delivered
    } else {
        dispatch_fold(dispatch_step(delivered, state, raws[0]), state, raws.skip(1))
    }
}

/// The bridge: the process-global observation state and its delivery log.
pub struct Bridge {
    pub state: BridgeState,
    pub delivered: Vec<FocusEvent>,
    pub next_token: u64,
    pub active_token: u64,
}

impl Bridge {
    /// The delivery log as a sequence of normalized-record models.
    pub open spec fn delivered_model(self) -> Seq<FocusEventModel> {
        self.delivered@.map(|i: int, e: FocusEvent| e@)
    }

    /// The whole bridge as its mathematical model.
    pub open spec fn model(self) -> BridgeModel {
        BridgeModel {
            state: self.state,
            delivered: self.delivered_model(),
            next_token: self.next_token,
            active_token: self.active_token,
        }
    }

    /// A bridge that has never observed: no subscription, empty log.
    pub fn new() -> (b: Bridge)
        ensures
            b.state is Uninitialized,
            b.delivered_model() == Seq::<FocusEventModel>::empty(),
            b.next_token == 0,
    {
        let b = Bridge {
            state: BridgeState::Uninitialized,
            delivered: Vec::new(),
            next_token: 0,
            active_token: 0,
        };
        proof {
            assert(b.delivered_model() =~= Seq::<FocusEventModel>::empty());
        }
        b
    }

    /// Whether a subscription is currently live.
    pub fn is_observing(&self) -> (r: bool)
        ensures
            r == (self.state is Running),
    {
        match self.state {
            BridgeState::Running => true,
            _ => false,
        }
    }

    /// Starts observing, given the outcome of the native registration
    /// attempt the shell just made (`native_registered` is true when the
    /// native mechanism accepted the callback).
    ///
    /// Fails with `SubscriptionUnavailable`, leaving the bridge exactly as
    /// it was, when a subscription already exists in this process or when
    /// the native mechanism refused.  On success the bridge is `Running`
    /// and the returned handle is the sole owner of the new subscription.
    /// No payload that arrived before the start is ever in the log: the log
    /// is exactly what it was at the moment of registration.
    pub fn start_observing(&mut self, native_registered: bool) -> (r: Result<
        ObserverHandle,
        BridgeError,
    >)
        requires
            old(self).next_token < u64::MAX,
        ensures
            old(self).state is Running ==> r == Err::<ObserverHandle, BridgeError>(
                BridgeError::SubscriptionUnavailable,
            ) && final(self).model() == old(self).model(),
            !(old(self).state is Running) && !native_registered ==> r == Err::<
                ObserverHandle,
                BridgeError,
            >(BridgeError::SubscriptionUnavailable) && final(self).model() == old(self).model(),
            !(old(self).state is Running) && native_registered ==> {
                &&& r == Ok::<ObserverHandle, BridgeError>(ObserverHandle {
                    token: old(self).next_token,
                })
                &&& final(self).state is Running
                &&& final(self).active_token == old(self).next_token
                &&& final(self).next_token == old(self).next_token + 1
                &&& final(self).delivered_model() == old(self).delivered_model()
            },
    {
        match self.state {
            BridgeState::Running => Err(BridgeError::SubscriptionUnavailable),
            _ => {
                if native_registered {
                    let token = self.next_token;
                    self.state = BridgeState::Running;
                    self.active_token = token;
                    self.next_token = token + 1;
                    Ok(ObserverHandle { token })
                } else {
                    Err(BridgeError::SubscriptionUnavailable)
                }
            },
        }
    }

    /// Stops observing, consuming the handle so the same subscription cannot
    /// be released twice through it.
    ///
    /// Succeeds exactly when the handle belongs to the live subscription;
    /// the bridge is then `Stopped` and the delivery log is unchanged.  A
    /// handle that outlived its subscription is refused with
    /// `AlreadyStopped` and disturbs nothing.
    pub fn stop_observing(&mut self, handle: ObserverHandle) -> (r: Result<(), BridgeError>)
        ensures
            old(self).state is Running && handle.token == old(self).active_token ==> {
                &&& r == Ok::<(), BridgeError>(())
                &&& final(self).state is Stopped
                &&& final(self).delivered_model() == old(self).delivered_model()
                &&& final(self).next_token == old(self).next_token
            },
            !(old(self).state is Running && handle.token == old(self).active_token) ==> r == Err::<
                (),
                BridgeError,
            >(BridgeError::AlreadyStopped) && final(self).model() == old(self).model(),
    {
        match self.state {
            BridgeState::Running => {
                if handle.token == self.active_token {
                    self.state = BridgeState::Stopped;
                    Ok(())
                } else {
                    Err(BridgeError::AlreadyStopped)
                }
            },
            _ => Err(BridgeError::AlreadyStopped),
        }
    }

    /// Receives one raw native notification payload.
    ///
    /// While a subscription is live, the payload is marshaled and appended
    /// to the delivery log -- every payload, in arrival order, with no
    /// coalescing -- and the normalized record is handed back for dispatch.
    /// Before registration and after a stop, nothing is delivered and the
    /// payload is dropped.
    pub fn deliver(&mut self, raw: &RawEvent) -> (r: Option<FocusEvent>)
        ensures
            final(self).state == old(self).state,
            final(self).next_token == old(self).next_token,
            final(self).active_token == old(self).active_token,
            final(self).delivered_model() == dispatch_step(
                old(self).delivered_model(),
                old(self).state,
                raw@,
            ),
            old(self).state is Running ==> (r matches Some(e) && e@ == marshal_spec(raw@)),
            !(old(self).state is Running) ==> r is None,
    {
        match self.state {
            BridgeState::Running => {
                let e = marshal_event(raw);
                let out = FocusEvent {
                    application_name: e.application_name.clone(),
                    window_title: e.window_title.clone(),
                    application_identifier: e.application_identifier.clone(),
                    url: e.url.clone(),
                };
                self.delivered.push(e);
                proof {
                    assert(self.delivered_model() =~= dispatch_step(
                        old(self).delivered_model(),
                        old(self).state,
                        raw@,
                    ));
                }
                Some(out)
            },
            _ => None,
        }
    }
}

/// Order and count preservation of the marshaling layer: a sequence of
/// native notifications arriving while observing extends the delivery log by
/// exactly one normalized record per payload, in arrival order -- no drops,
/// no reordering, no coalescing.
pub proof fn lemma_delivery_preserves_order_and_count(
    delivered: Seq<FocusEventModel>,
    raws: Seq<RawEventModel>,
)
    ensures
        dispatch_fold(delivered, BridgeState::Running, raws) == delivered + raws.map(
            |i: int, r: RawEventModel| marshal_spec(r),
        ),
        dispatch_fold(delivered, BridgeState::Running, raws).len() == delivered.len()
            + raws.len(),
    decreases raws.len(),
{
    let f = |i: int, r: RawEventModel| marshal_spec(r);
    if raws.len() == 0 {
        assert(dispatch_fold(delivered, BridgeState::Running, raws) =~= delivered + raws.map(f));
    } else {
        let stepped = delivered.push(marshal_spec(raws[0]));
        lemma_delivery_preserves_order_and_count(stepped, raws.skip(1));
        assert(stepped + raws.skip(1).map(f) =~= delivered + raws.map(f));
    }
}

/// While no subscription is live -- before registration as much as after a
/// stop -- no sequence of native notifications changes the delivery log:
/// there is no backlog or replay, and cancellation prevents every future
/// delivery.
pub proof fn lemma_no_delivery_while_not_observing(
    delivered: Seq<FocusEventModel>,
    state: BridgeState,
    raws: Seq<RawEventModel>,
)
    requires
        !(state is Running),
    ensures
        dispatch_fold(delivered, state, raws) == delivered,
    decreases raws.len(),
{
    if raws.len() > 0 {
        lemma_no_delivery_while_not_observing(delivered, state, raws.skip(1));
    }
}

} // verus!
