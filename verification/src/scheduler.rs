//! The frame scheduler: the synchronization protocol that lets at most `F`
//! frames be in flight at once without the CPU ever reusing a resource the
//! GPU is still working on.
//!
//! The scheduler is the decision half of the render loop. The unverified
//! shell performs each driver call (wait on a fence, acquire an image,
//! submit, present) and reports the outcome back; the scheduler decides what
//! to do next and accounts for the effect on the synchronization state. A
//! fence is modelled by one bit per frame slot: `true` when signaled (the
//! GPU finished, or never received, that slot's last submission), `false`
//! while the slot's work is still in flight. `images_in_flight` tracks, per
//! swapchain image, which slot's fence last claimed it, so a frame that
//! acquires an image another slot is still rendering into knows to wait for
//! that fence too.

use vstd::prelude::*;

verus! {

/// Where the current frame slot stands in its per-iteration protocol.
#[derive(Clone, Copy, PartialEq, Eq, Structural, Debug)]
pub enum Phase {
    /// Between iterations; nothing waited on or acquired yet.
    Idle,
    /// The slot's own fence has been waited on: its previous work is done
    /// and its resources may be reused.
    SlotReady,
    /// A swapchain image has been acquired and any prior claim on it has
    /// been waited out; the frame may record and update resources bound to
    /// this image.
    ImageAcquired { image: usize },
    /// Work for the acquired image has been submitted with the slot's fence
    /// as completion fence; the image awaits presentation.
    Submitted { image: usize },
}

/// How many entries of a fence array are unsignaled, i.e. how many frame
/// slots are in flight.
pub open spec fn count_unsignaled(s: Seq<bool>) -> int
    decreases s.len(),
{
    if s.len() == 0 {
        0
    } else {
        count_unsignaled(s.drop_last()) + if s.last() {
            0int
        } else {
            1int
        }
    }
}

pub proof fn lemma_count_unsignaled_bounds(s: Seq<bool>)
    ensures
        0 <= count_unsignaled(s) <= s.len(),
    decreases s.len(),
{
    if s.len() > 0 {
        lemma_count_unsignaled_bounds(s.drop_last());
    }
}

pub proof fn lemma_count_unsignaled_zero(s: Seq<bool>)
    ensures
        count_unsignaled(s) == 0 <==> (forall|i: int| 0 <= i < s.len() ==> s[i]),
    decreases s.len(),
{
    if s.len() > 0 {
        let t = s.drop_last();
        lemma_count_unsignaled_zero(t);
        lemma_count_unsignaled_bounds(t);
        if count_unsignaled(s) == 0 {
            assert(count_unsignaled(t) == 0);
            assert(s.last());
            assert forall|i: int| 0 <= i < s.len() implies s[i] by {
                if i < s.len() - 1 {
                    assert(s[i] == t[i]);
                } else {
                    assert(s[i] == s.last());
                }
            }
        } else {
            if s.last() {
                assert(count_unsignaled(t) != 0);
                let i = choose|i: int| 0 <= i < t.len() && !t[i];
                assert(!s[i]);
            } else {
                assert(!s[s.len() - 1]);
            }
        }
    }
}

/// The synchronization state of the render loop: one fence and one pair of
/// semaphores per frame slot (the semaphores order GPU work against GPU
/// work and are never observed by the CPU, so only their count is modelled),
/// plus the per-image record of which slot's fence last claimed each
/// swapchain image.
pub struct FrameScheduler {
    /// Number of frame slots `F`: how many frames may be in flight at once.
    pub frame_count: usize,
    /// Number of swapchain images currently presentable.
    pub image_count: usize,
    /// Per slot: whether the slot's in-flight fence is signaled.
    pub fence_signaled: Vec<bool>,
    /// Per swapchain image: the slot whose fence last claimed it, if any.
    pub images_in_flight: Vec<Option<usize>>,
    /// The slot the round-robin rotation is currently on.
    pub current_slot: usize,
    /// Where the current slot stands in its per-iteration protocol.
    pub phase: Phase,
    /// How many submissions have been made.
    pub submit_count: u64,
    /// How many presentations have completed.
    pub present_count: u64,
    /// How many times the swapchain had to be recreated.
    pub recreate_count: u64,
}

impl FrameScheduler {
    /// The invariant every step preserves: the arrays match the slot and
    /// image counts, every recorded claim names a real slot, and the phase's
    /// own obligations hold — in particular, after submission the acquired
    /// image is claimed by the current slot's unsignaled fence, and before
    /// recording, any prior claim on the acquired image has been waited out.
    pub open spec fn well_formed(&self) -> bool {
        &&& 1 <= self.frame_count
        &&& self.fence_signaled@.len() == self.frame_count
        &&& self.images_in_flight@.len() == self.image_count
        &&& self.current_slot < self.frame_count
        &&& forall|i: int|
            0 <= i < self.image_count ==> ((#[trigger] self.images_in_flight@[i]) matches Some(s)
                ==> s < self.frame_count)
        &&& match self.phase {
            Phase::Idle => true,
            Phase::SlotReady => self.fence_signaled@[self.current_slot as int],
            Phase::ImageAcquired { image } => {
                &&& image < self.image_count
                &&& self.fence_signaled@[self.current_slot as int]
                &&& (self.images_in_flight@[image as int] matches Some(t)
                    ==> self.fence_signaled@[t as int])
            },
            Phase::Submitted { image } => {
                &&& image < self.image_count
                &&& !self.fence_signaled@[self.current_slot as int]
                &&& self.images_in_flight@[image as int] == Some(self.current_slot)
            },
        }
    }

    /// How many frame slots are in flight right now.
    pub open spec fn in_flight_count(&self) -> int {
        count_unsignaled(self.fence_signaled@)
    }

    /// Set up the synchronization state for `frame_count` slots and
    /// `image_count` swapchain images: every fence starts signaled (no work
    /// submitted yet) and no image is claimed.
    pub fn new(frame_count: usize, image_count: usize) -> (s: FrameScheduler)
        requires
            1 <= frame_count,
        ensures
            s.well_formed(),
            s.frame_count == frame_count,
            s.image_count == image_count,
            s.current_slot == 0,
            s.phase == Phase::Idle,
            forall|i: int| 0 <= i < frame_count ==> s.fence_signaled@[i],
            forall|i: int| 0 <= i < image_count ==> s.images_in_flight@[i] is None,
            s.submit_count == 0,
            s.present_count == 0,
            s.recreate_count == 0,
    {
        FrameScheduler {
            frame_count,
            image_count,
            fence_signaled: signaled_fences(frame_count),
            images_in_flight: unclaimed_images(image_count),
            current_slot: 0,
            phase: Phase::Idle,
            submit_count: 0,
            present_count: 0,
            recreate_count: 0,
        }
    }

    /// Begin an iteration: the caller blocks on the current slot's fence
    /// (unbounded timeout) so the GPU is done with the slot's previous work
    /// before any of its resources are reused. On return the wait has
    /// happened: the fence is signaled. This is the back-pressure that keeps
    /// the CPU at most `frame_count` frames ahead.
    pub fn wait_for_slot_fence(&mut self) -> (slot: usize)
        requires
            old(self).well_formed(),
            old(self).phase == Phase::Idle,
        ensures
            final (self).well_formed(),
            slot == old(self).current_slot,
            final (self).phase == Phase::SlotReady,
            final (self).fence_signaled@ == old(self).fence_signaled@.update(slot as int, true),
            final (self).images_in_flight@ == old(self).images_in_flight@,
            final (self).current_slot == old(self).current_slot,
            final (self).frame_count == old(self).frame_count,
            final (self).image_count == old(self).image_count,
            final (self).submit_count == old(self).submit_count,
            final (self).present_count == old(self).present_count,
            final (self).recreate_count == old(self).recreate_count,
    {
        let slot = self.current_slot;
        self.fence_signaled.set(slot, true);
        self.phase = Phase::SlotReady;
        slot
    }

    /// The acquire call handed back `image`. If a different iteration's
    /// fence still claims this image — round-robin slot order need not match
    /// image-acquisition order — that fence must be waited on too before the
    /// image's resources may be touched; the returned slot says which, and
    /// on return that wait has happened. Returns `None` when the image was
    /// unclaimed or its claimant already finished.
    pub fn image_acquired(&mut self, image: usize) -> (prior: Option<usize>)
        requires
            old(self).well_formed(),
            old(self).phase == Phase::SlotReady,
            image < old(self).image_count,
        ensures
            final (self).well_formed(),
            final (self).phase == (Phase::ImageAcquired { image }),
            prior == (match old(self).images_in_flight@[image as int] {
                Some(t) => if !old(self).fence_signaled@[t as int] {
                    Some(t)
                } else {
                    None
                },
                None => None,
            }),
            prior matches Some(t) ==> final (self).fence_signaled@ == old(
                self,
            ).fence_signaled@.update(t as int, true),
            prior is None ==> final (self).fence_signaled@ == old(self).fence_signaled@,
            final (self).images_in_flight@ == old(self).images_in_flight@,
            final (self).current_slot == old(self).current_slot,
            final (self).frame_count == old(self).frame_count,
            final (self).image_count == old(self).image_count,
            final (self).submit_count == old(self).submit_count,
            final (self).present_count == old(self).present_count,
            final (self).recreate_count == old(self).recreate_count,
    {
        let prior: Option<usize> = match self.images_in_flight[image] {
            Some(t) => {
                if !self.fence_signaled[t] {
                    self.fence_signaled.set(t, true);
                    Some(t)
                } else {
                    None
                }
            },
            None => None,
        };
        self.phase = Phase::ImageAcquired { image };
        prior
    }

    /// The acquire call reported the surface out of date (or suboptimal):
    /// the swapchain and everything derived from it are recreated — which
    /// first drains the device to idle — and the rest of this iteration is
    /// abandoned: no submission happens this round, and the slot retries.
    pub fn acquire_out_of_date(&mut self, new_image_count: usize)
        requires
            old(self).well_formed(),
            old(self).phase == Phase::SlotReady,
            old(self).recreate_count < u64::MAX,
        ensures
            final (self).well_formed(),
            final (self).phase == Phase::Idle,
            final (self).image_count == new_image_count,
            forall|i: int| 0 <= i < new_image_count ==> final (self).images_in_flight@[i] is None,
            forall|i: int|
                0 <= i < old(self).frame_count ==> final (self).fence_signaled@[i],
            final (self).current_slot == old(self).current_slot,
            final (self).frame_count == old(self).frame_count,
            final (self).submit_count == old(self).submit_count,
            final (self).present_count == old(self).present_count,
            final (self).recreate_count == old(self).recreate_count + 1,
    {
        self.recreate(new_image_count);
    }

    /// Reset the current slot's fence to unsignaled and hand the recorded
    /// work for the acquired image to the graphics queue, with the slot's
    /// fence as completion fence: the image is now claimed by this slot.
    pub fn submit(&mut self, image: usize)
        requires
            old(self).well_formed(),
            old(self).phase == (Phase::ImageAcquired { image }),
            old(self).submit_count < u64::MAX,
        ensures
            final (self).well_formed(),
            final (self).phase == (Phase::Submitted { image }),
            final (self).fence_signaled@ == old(self).fence_signaled@.update(
                old(self).current_slot as int,
                false,
            ),
            final (self).images_in_flight@ == old(self).images_in_flight@.update(
                image as int,
                Some(old(self).current_slot),
            ),
            final (self).current_slot == old(self).current_slot,
            final (self).frame_count == old(self).frame_count,
            final (self).image_count == old(self).image_count,
            final (self).submit_count == old(self).submit_count + 1,
            final (self).present_count == old(self).present_count,
            final (self).recreate_count == old(self).recreate_count,
    {
        let slot = self.current_slot;
        self.fence_signaled.set(slot, false);
        self.images_in_flight.set(image, Some(slot));
        self.submit_count = self.submit_count + 1;
        self.phase = Phase::Submitted { image };
    }

    /// The present call succeeded: the iteration is complete and the
    /// rotation advances to the next frame slot.
    pub fn present_ok(&mut self)
        requires
            old(self).well_formed(),
            old(self).phase matches Phase::Submitted { .. },
            old(self).present_count < u64::MAX,
        ensures
            final (self).well_formed(),
            final (self).phase == Phase::Idle,
            final (self).current_slot == (old(self).current_slot + 1) % (
            old(self).frame_count as int),
            final (self).fence_signaled@ == old(self).fence_signaled@,
            final (self).images_in_flight@ == old(self).images_in_flight@,
            final (self).frame_count == old(self).frame_count,
            final (self).image_count == old(self).image_count,
            final (self).submit_count == old(self).submit_count,
            final (self).present_count == old(self).present_count + 1,
            final (self).recreate_count == old(self).recreate_count,
    {
        self.present_count = self.present_count + 1;
        self.current_slot = (self.current_slot + 1) % self.frame_count;
        self.phase = Phase::Idle;
    }

    /// The present call reported the surface out of date (or suboptimal):
    /// the submitted work still ran, but the swapchain and everything
    /// derived from it are recreated — draining the device to idle first —
    /// before the next iteration acquires. The rotation advances as usual.
    pub fn present_out_of_date(&mut self, new_image_count: usize)
        requires
            old(self).well_formed(),
            old(self).phase matches Phase::Submitted { .. },
            old(self).recreate_count < u64::MAX,
        ensures
            final (self).well_formed(),
            final (self).phase == Phase::Idle,
            final (self).image_count == new_image_count,
            forall|i: int| 0 <= i < new_image_count ==> final (self).images_in_flight@[i] is None,
            forall|i: int|
                0 <= i < old(self).frame_count ==> final (self).fence_signaled@[i],
            final (self).current_slot == (old(self).current_slot + 1) % (
            old(self).frame_count as int),
            final (self).frame_count == old(self).frame_count,
            final (self).submit_count == old(self).submit_count,
            final (self).present_count == old(self).present_count,
            final (self).recreate_count == old(self).recreate_count + 1,
    {
        self.current_slot = (self.current_slot + 1) % self.frame_count;
        self.phase = Phase::Idle;
        self.recreate(new_image_count);
    }

    /// Drain: block until the device is fully idle, so every slot's fence is
    /// signaled and nothing is in flight. Used before teardown and as part
    /// of recreation.
    pub fn wait_idle(&mut self)
        requires
            old(self).well_formed(),
            old(self).phase == Phase::Idle,
        ensures
            final (self).well_formed(),
            final (self).phase == Phase::Idle,
            forall|i: int| 0 <= i < old(self).frame_count ==> final (self).fence_signaled@[i],
            final (self).in_flight_count() == 0,
            final (self).images_in_flight@ == old(self).images_in_flight@,
            final (self).current_slot == old(self).current_slot,
            final (self).frame_count == old(self).frame_count,
            final (self).image_count == old(self).image_count,
            final (self).submit_count == old(self).submit_count,
            final (self).present_count == old(self).present_count,
            final (self).recreate_count == old(self).recreate_count,
    {
        self.fence_signaled = signaled_fences(self.frame_count);
        proof {
            lemma_count_unsignaled_zero(self.fence_signaled@);
        }
    }

    /// The shared recreation step: drain the device, forget every image
    /// claim, and size the per-image tracking to the new chain.
    fn recreate(&mut self, new_image_count: usize)
        requires
            old(self).well_formed(),
            old(self).recreate_count < u64::MAX,
        ensures
            final (self).frame_count == old(self).frame_count,
            final (self).image_count == new_image_count,
            final (self).images_in_flight@.len() == new_image_count,
            forall|i: int| 0 <= i < new_image_count ==> final (self).images_in_flight@[i] is None,
            final (self).fence_signaled@.len() == old(self).frame_count,
            forall|i: int| 0 <= i < old(self).frame_count ==> final (self).fence_signaled@[i],
            final (self).current_slot == old(self).current_slot,
            final (self).phase == Phase::Idle,
            final (self).submit_count == old(self).submit_count,
            final (self).present_count == old(self).present_count,
            final (self).recreate_count == old(self).recreate_count + 1,
    {
        self.fence_signaled = signaled_fences(self.frame_count);
        self.images_in_flight = unclaimed_images(new_image_count);
        self.image_count = new_image_count;
        self.phase = Phase::Idle;
        self.recreate_count = self.recreate_count + 1;
    }
}

fn signaled_fences(frame_count: usize) -> (v: Vec<bool>)
    ensures
        v@.len() == frame_count,
        forall|i: int| 0 <= i < frame_count ==> v@[i],
{
    let mut v: Vec<bool> = Vec::new();
    let mut i: usize = 0;
    while i < frame_count
        invariant
            i <= frame_count,
            v@.len() == i,
            forall|j: int| 0 <= j < i ==> v@[j],
        decreases frame_count - i,
    {
        v.push(true);
        i = i + 1;
    }
    v
}

fn unclaimed_images(image_count: usize) -> (v: Vec<Option<usize>>)
    ensures
        v@.len() == image_count,
        forall|i: int| 0 <= i < image_count ==> v@[i] is None,
{
    let mut v: Vec<Option<usize>> = Vec::new();
    let mut i: usize = 0;
    while i < image_count
        invariant
            i <= image_count,
            v@.len() == i,
            forall|j: int| 0 <= j < i ==> v@[j] is None,
        decreases image_count - i,
    {
        v.push(None);
        i = i + 1;
    }
    v
}

/// At any instant at most `frame_count` slots are in flight: the unsignaled
/// fences are among the `frame_count` per-slot fences.
pub proof fn lemma_bounded_frames_in_flight(s: FrameScheduler)
    requires
        s.well_formed(),
    ensures
        s.in_flight_count() <= s.frame_count,
{
    lemma_count_unsignaled_bounds(s.fence_signaled@);
}

/// An image's in-flight record names at most one frame slot, so
/// `images_in_flight[i]` can never simultaneously equal two distinct
/// currently-unsignaled fences.
pub proof fn lemma_image_claim_unique(s: FrameScheduler, i: int, a: usize, b: usize)
    requires
        s.well_formed(),
        0 <= i < s.images_in_flight@.len(),
        s.images_in_flight@[i] == Some(a),
        !s.fence_signaled@[a as int],
        s.images_in_flight@[i] == Some(b),
        !s.fence_signaled@[b as int],
    ensures
        a == b,
{
}

/// While a slot's work is submitted and unpresented, the acquired image is
/// claimed by exactly the current slot's fence, and that fence is
/// unsignaled: no other slot may reuse the image until the fence is waited
/// out.
pub proof fn lemma_submitted_image_is_fenced(s: FrameScheduler)
    requires
        s.well_formed(),
        s.phase matches Phase::Submitted { .. },
    ensures
        s.phase matches Phase::Submitted { image } ==> s.images_in_flight@[image as int] == Some(
            s.current_slot,
        ) && !s.fence_signaled@[s.current_slot as int],
{
}

} // verus!
