//! The lifecycle contract of the screen-border overlay.
//!
//! A process shows at most one overlay at a time.  The controller decides
//! which drawing calls reach the native boundary, records each such call in
//! order, and accounts for every native resource: a successful creation
//! while an overlay is live replaces it, releasing the old resource in the
//! same native call, so no observation point ever sees two live overlays or
//! a leaked one.

use vstd::prelude::*;

verus! {

/// Visual parameters of an overlay, carried in thousandths so that the
/// unit-interval color components and opacity, and the non-negative stroke
/// width, are exact integers (the unverified shell divides by 1000 at the
/// native boundary).
#[derive(Clone, Copy, PartialEq, Eq, Structural, Debug)]
pub struct OverlayParams {
    pub red_milli: u32,
    pub green_milli: u32,
    pub blue_milli: u32,
    pub width_milli: u32,
    pub opacity_milli: u32,
}

impl OverlayParams {
    /// The color components and the opacity lie in the unit interval.
    pub open spec fn wf(self) -> bool {
        &&& self.red_milli <= 1000
        &&& self.green_milli <= 1000
        &&& self.blue_milli <= 1000
        &&& self.opacity_milli <= 1000
    }

    /// Builds a parameter record from unit-interval components (in
    /// thousandths) and a stroke width (in thousandths of a point).
    pub fn new(
        red_milli: u32,
        green_milli: u32,
        blue_milli: u32,
        width_milli: u32,
        opacity_milli: u32,
    ) -> (p: OverlayParams)
        requires
            red_milli <= 1000,
            green_milli <= 1000,
            blue_milli <= 1000,
            opacity_milli <= 1000,
        ensures
            p == (OverlayParams { red_milli, green_milli, blue_milli, width_milli, opacity_milli }),
            p.wf(),
    {
        OverlayParams { red_milli, green_milli, blue_milli, width_milli, opacity_milli }
    }
}

/// One call that reached the native overlay boundary, in the order made.
#[derive(Clone, Copy, PartialEq, Eq, Structural, Debug)]
pub enum NativeCall {
    Create(OverlayParams),
    Remove,
}

/// Why an overlay operation failed: the native boundary returned a non-zero
/// status for the call.
#[derive(Clone, Copy, PartialEq, Eq, Structural, Debug)]
pub enum OverlayError {
    CreateFailed,
    RemoveFailed,
}

/// Mathematical model of the controller: the live overlay (if any), the
/// native calls made so far in order, and how many native overlay resources
/// were ever created and released.
pub struct OverlayModel {
    pub active: Option<OverlayParams>,
    pub calls: Seq<NativeCall>,
    pub created: int,
    pub released: int,
}

impl OverlayModel {
    /// How many overlays are live: never more than one.
    pub open spec fn live(self) -> int {
        if self.active is Some {
            1
        } else {
            0
        }
    }

    /// Resource accounting is balanced: every created native resource but
    /// the live one has been released.
    pub open spec fn wf(self) -> bool {
        &&& 0 <= self.released
        &&& self.created == self.released + self.live()
    }
}

/// What a creation call with the given native status does to the model: the
/// call reaches the boundary in every case; on success the new overlay is
/// live and the old one (if any) has been released by the native replace,
/// on failure the old overlay remains exactly as it was.
pub open spec fn create_step(m: OverlayModel, p: OverlayParams, status: i32) -> OverlayModel {
    if status == 0 {
        OverlayModel {
            active: Option::Some(p),
            calls: m.calls.push(NativeCall::Create(p)),
            created: m.created + 1,
            released: m.released + m.live(),
        }
    } else {
        OverlayModel { calls: m.calls.push(NativeCall::Create(p)), ..m }
    }
}

/// What a removal does to the model: with no live overlay it is a no-op and
/// no call reaches the boundary; otherwise the call is made, and on success
/// the resource is released.
pub open spec fn remove_step(m: OverlayModel, status: i32) -> OverlayModel {
    if m.active is None {
        m
    } else if status == 0 {
        OverlayModel {
            active: Option::None,
            calls: m.calls.push(NativeCall::Remove),
            created: m.created,
            released: m.released + 1,
        }
    } else {
        OverlayModel { calls: m.calls.push(NativeCall::Remove), ..m }
    }
}

/// The overlay lifecycle controller: owner of the at-most-one native
/// overlay resource of the process.
pub struct OverlayController {
    pub active: Option<OverlayParams>,
    pub calls: Vec<NativeCall>,
    pub created: Ghost<int>,
    pub released: Ghost<int>,
}

impl OverlayController {
    /// The controller as its mathematical model.
    pub open spec fn model(self) -> OverlayModel {
        OverlayModel {
            active: self.active,
            calls: self.calls@,
            created: self.created@,
            released: self.released@,
        }
    }

    /// A controller with no overlay and an empty call record.
    pub fn new() -> (c: OverlayController)
        ensures
            c.model() == (OverlayModel {
                active: Option::<OverlayParams>::None,
                calls: Seq::<NativeCall>::empty(),
                created: 0,
                released: 0,
            }),
            c.model().wf(),
    {
        let c = OverlayController {
            active: None,
            calls: Vec::new(),
            created: Ghost(0),
            released: Ghost(0),
        };
        proof {
            assert(c.calls@ =~= Seq::<NativeCall>::empty());
        }
        c
    }

    /// Whether an overlay is currently live.
    pub fn has_overlay(&self) -> (r: bool)
        ensures
            r == (self.active is Some),
    {
        match self.active {
            Some(_) => true,
            None => false,
        }
    }

    /// Records a creation call the shell just made at the native boundary
    /// with the given parameters, and the status it returned (0 is
    /// success).
    ///
    /// On success the new overlay is the only live one: the native call
    /// replaced the previous overlay, releasing its resource, so no
    /// observation point sees two overlays or a leak.  On failure the
    /// previous overlay remains in exactly the state it was.
    pub fn create_overlay(&mut self, p: OverlayParams, status: i32) -> (r: Result<
        (),
        OverlayError,
    >)
        requires
            old(self).model().wf(),
            p.wf(),
        ensures
            final(self).model() == create_step(old(self).model(), p, status),
            final(self).model().wf(),
            status == 0 ==> r == Ok::<(), OverlayError>(()) && final(self).active == Some(p),
            status != 0 ==> r == Err::<(), OverlayError>(OverlayError::CreateFailed)
                && final(self).active == old(self).active,
    {
        self.calls.push(NativeCall::Create(p));
        if status == 0 {
            proof {
                self.created@ = self.created@ + 1;
                self.released@ = self.released@ + self.model().live();
            }
            self.active = Some(p);
            Ok(())
        } else {
            Err(OverlayError::CreateFailed)
        }
    }

    /// Removes the live overlay, if any.
    ///
    /// With no live overlay this is a no-op that succeeds and makes no
    /// native call (the shell must skip the boundary call when
    /// `has_overlay` is false).  Otherwise the shell's removal call and its
    /// status are recorded: on success the resource is released and no
    /// overlay is live; on failure the overlay remains live.
    pub fn remove_overlay(&mut self, status: i32) -> (r: Result<(), OverlayError>)
        requires
            old(self).model().wf(),
        ensures
            final(self).model() == remove_step(old(self).model(), status),
            final(self).model().wf(),
            old(self).active is None ==> r == Ok::<(), OverlayError>(()),
            old(self).active is Some && status == 0 ==> r == Ok::<(), OverlayError>(())
                && final(self).active is None,
            old(self).active is Some && status != 0 ==> r == Err::<(), OverlayError>(
                OverlayError::RemoveFailed,
            ) && final(self).active == old(self).active,
    {
        match self.active {
            None => Ok(()),
            Some(_) => {
                self.calls.push(NativeCall::Remove);
                if status == 0 {
                    proof {
                        self.released@ = self.released@ + 1;
                    }
                    self.active = None;
                    Ok(())
                } else {
                    Err(OverlayError::RemoveFailed)
                }
            },
        }
    }
}

/// Two successive successful creations with any parameters leave exactly one
/// live native overlay: both calls reach the boundary in order, two
/// resources were created and all but the latest released -- no
/// double-visible state and no leak, at either observation point.
pub proof fn lemma_replacement_keeps_one_live(
    m: OverlayModel,
    p1: OverlayParams,
    p2: OverlayParams,
)
    requires
        m.wf(),
    ensures
        create_step(m, p1, 0).live() == 1,
        create_step(create_step(m, p1, 0), p2, 0).live() == 1,
        create_step(create_step(m, p1, 0), p2, 0).active == Option::Some(p2),
        create_step(create_step(m, p1, 0), p2, 0).created == create_step(
            create_step(m, p1, 0),
            p2,
            0,
        ).released + 1,
        create_step(create_step(m, p1, 0), p2, 0).calls == m.calls.push(
            NativeCall::Create(p1),
        ).push(NativeCall::Create(p2)),
{
}

/// Removal is idempotent on an inactive controller: with no live overlay it
/// changes nothing, so it cannot fail and cannot affect any later creation.
pub proof fn lemma_remove_without_overlay_is_noop(
    m: OverlayModel,
    status: i32,
    p: OverlayParams,
    later_status: i32,
)
    requires
        m.active is None,
    ensures
        remove_step(m, status) == m,
        create_step(remove_step(m, status), p, later_status) == create_step(m, p, later_status),
{
}

} // verus!
