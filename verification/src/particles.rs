//! The ring of short-lived thrust particles behind the engines.
//!
//! The ring does the bookkeeping: which slot the next particle goes into and
//! how old each particle is, counted in steps. Where a particle is and how
//! fast it moves is kept by the caller, slot by slot.

use vstd::prelude::*;

verus! {

/// Number of slots in the ring.
pub const PARTICLE_COUNT: usize = 15;

/// Number of steps a particle lives: one second at ten steps a second.
pub const PARTICLE_LIFETIME: u16 = 10;

/// The age at which a particle is spent, and beyond which no age is counted.
pub const SPENT: u16 = PARTICLE_LIFETIME + 1;

/// What a [`ParticleRing`] stands for.
pub struct RingView {
    /// The age of the particle in each slot, in steps; [`SPENT`] where the
    /// particle has outlived its lifetime.
    pub ages: Seq<nat>,
    /// The slot that the next particle goes into.
    pub next: nat,
}

/// The slot that was written `back` activations ago, seen from a ring whose
/// next slot is `next`. The slot that is written next is the one written a
/// full round ago.
pub open spec fn slot_back(next: nat, back: int) -> int {
    (next + PARTICLE_COUNT - back) % (PARTICLE_COUNT as int)
}

/// One step older, unless already spent.
pub open spec fn aged(age: nat) -> nat {
    if age < SPENT {
        age + 1
    } else {
        age
    }
}

impl RingView {
    /// Whether slot `slot` holds a living particle.
    pub open spec fn live(self, slot: int) -> bool {
        0 <= slot < self.ages.len() && self.ages[slot] <= PARTICLE_LIFETIME
    }

    /// The ring after a new particle went into the next slot.
    pub open spec fn activated(self) -> RingView {
        RingView {
            ages: self.ages.update(self.next as int, 0),
            next: (self.next + 1) % (PARTICLE_COUNT as int) as nat,
        }
    }

    /// The ring after every particle has aged by one step.
    pub open spec fn ticked(self) -> RingView {
        RingView { ages: Seq::new(self.ages.len(), |i: int| aged(self.ages[i])), next: self.next }
    }

    /// The ring after `count` activations in a row.
    pub open spec fn activated_times(self, count: nat) -> RingView
        decreases count,
    {
        if count == 0 {
            self
        } else {
            self.activated_times((count - 1) as nat).activated()
        }
    }

    /// The ring has its fixed number of slots, counts no age beyond
    /// [`SPENT`], and the longer ago a slot was written, the older its
    /// particle.
    pub open spec fn wf(self) -> bool {
        &&& self.ages.len() == PARTICLE_COUNT
        &&& self.next < PARTICLE_COUNT
        &&& forall|i: int| 0 <= i < PARTICLE_COUNT ==> #[trigger] self.ages[i] <= SPENT
        &&& forall|near: int, far: int|
            1 <= near <= far <= PARTICLE_COUNT ==> self.ages[#[trigger] slot_back(self.next, near)]
                <= self.ages[#[trigger] slot_back(self.next, far)]
    }
}

/// A ring of [`PARTICLE_COUNT`] particle slots that are written in turn.
pub struct ParticleRing {
    ages: Vec<u16>,
    next: usize,
}

/// The ring that a vector of ages and a next slot stand for.
spec fn ring_of(ages: Seq<u16>, next: usize) -> RingView {
    RingView { ages: Seq::new(ages.len(), |i: int| ages[i] as nat), next: next as nat }
}

impl View for ParticleRing {
    type V = RingView;

    closed spec fn view(&self) -> RingView {
        ring_of(self.ages@, self.next)
    }
}

impl ParticleRing {
    #[verifier::type_invariant]
    spec fn inv(self) -> bool {
        self@.wf()
    }

    /// A ring in which every slot holds a particle of age 0 and slot 0 is
    /// written first.
    pub fn new() -> (ring: Self)
        ensures
            ring@ == (RingView { ages: Seq::new(PARTICLE_COUNT as nat, |i: int| 0nat), next: 0 }),
            ring@.wf(),
    {
        let mut ages: Vec<u16> = Vec::new();
        let mut i: usize = 0;
        while i < PARTICLE_COUNT
            invariant
                0 <= i <= PARTICLE_COUNT,
                ages@.len() == i,
                forall|j: int| 0 <= j < i ==> ages@[j] == 0,
            decreases PARTICLE_COUNT - i,
        {
            ages.push(0);
            i = i + 1;
        }
        proof {
            assert(ring_of(ages@, 0).ages =~= Seq::new(PARTICLE_COUNT as nat, |i: int| 0nat));
        }
        ParticleRing { ages, next: 0 }
    }

    /// Starts a new particle in the next slot and returns that slot. The
    /// particle it replaces is spent or as old as any in the ring; the slot
    /// after it, around the ring, is written next.
    pub fn activate(&mut self) -> (slot: usize)
        ensures
            old(self)@.wf(),
            slot == old(self)@.next,
            final(self)@ == old(self)@.activated(),
            final(self)@.wf(),
            final(self)@.ages[slot as int] == 0,
            forall|i: int|
                0 <= i < PARTICLE_COUNT ==> old(self)@.ages[i] <= old(self)@.ages[slot as int],
    {
        proof {
            use_type_invariant(&*self);
        }
        let slot = self.next;
        let ghost before = self@;
        proof {
            assert forall|i: int| 0 <= i < PARTICLE_COUNT implies before.ages[i]
                <= before.ages[slot as int] by {
                let back = if i < slot {
                    slot - i
                } else {
                    slot + PARTICLE_COUNT - i
                };
                assert(slot_back(before.next, back) == i);
                assert(slot_back(before.next, PARTICLE_COUNT as int) == slot);
            }
        }
        let mut ages: Vec<u16> = Vec::new();
        let mut i: usize = 0;
        while i < PARTICLE_COUNT
            invariant
                0 <= i <= PARTICLE_COUNT,
                slot < PARTICLE_COUNT,
                self.ages@.len() == PARTICLE_COUNT,
                ages@.len() == i,
                forall|j: int|
                    0 <= j < i ==> ages@[j] == (if j == slot {
                        0
                    } else {
                        self.ages@[j]
                    }),
            decreases PARTICLE_COUNT - i,
        {
            if i == slot {
                ages.push(0);
            } else {
                ages.push(self.ages[i]);
            }
            i = i + 1;
        }
        let next = if slot + 1 == PARTICLE_COUNT {
            0
        } else {
            slot + 1
        };
        proof {
            assert(ring_of(ages@, next).ages =~= before.ages.update(slot as int, 0));
            assert(ring_of(ages@, next) == before.activated());
            lemma_activated_wf(before);
        }
        *self = ParticleRing { ages, next };
        slot
    }

    /// Ages every particle by one step. A particle that has lived its
    /// [`PARTICLE_LIFETIME`] is spent by the step, and a spent one stays
    /// spent.
    pub fn update(&mut self)
        ensures
            old(self)@.wf(),
            final(self)@ == old(self)@.ticked(),
            final(self)@.wf(),
    {
        proof {
            use_type_invariant(&*self);
        }
        let ghost before = self@;
        let mut ages: Vec<u16> = Vec::new();
        let mut i: usize = 0;
        while i < PARTICLE_COUNT
            invariant
                0 <= i <= PARTICLE_COUNT,
                before == self@,
                before.wf(),
                self.ages@.len() == PARTICLE_COUNT,
                ages@.len() == i,
                forall|j: int| 0 <= j < i ==> ages@[j] == aged(before.ages[j]),
            decreases PARTICLE_COUNT - i,
        {
            let age = self.ages[i];
            assert(age == before.ages[i as int]);
            if age < SPENT {
                ages.push(age + 1);
            } else {
                ages.push(age);
            }
            i = i + 1;
        }
        proof {
            assert(ring_of(ages@, self.next).ages =~= before.ticked().ages);
            assert(ring_of(ages@, self.next) == before.ticked());
            lemma_ticked_wf(before);
        }
        *self = ParticleRing { ages, next: self.next };
    }

    /// The age in steps of the particle in `slot`, if the slot exists and
    /// its particle is alive.
    pub fn age(&self, slot: usize) -> (age: Option<u16>)
        ensures
            self@.wf(),
            age is Some <==> self@.live(slot as int),
            age matches Some(a) ==> a == self@.ages[slot as int],
    {
        proof {
            use_type_invariant(self);
        }
        if slot < PARTICLE_COUNT && self.ages[slot] <= PARTICLE_LIFETIME {
            Some(self.ages[slot])
        } else {
            None
        }
    }

    /// The slot that the next particle goes into.
    pub fn next_slot(&self) -> (slot: usize)
        ensures
            self@.wf(),
            slot == self@.next,
            slot < PARTICLE_COUNT,
    {
        proof {
            use_type_invariant(self);
        }
        self.next
    }
}

/// Writing the next slot keeps a ring well formed.
pub proof fn lemma_activated_wf(ring: RingView)
    requires
        ring.wf(),
    ensures
        ring.activated().wf(),
{
    let after = ring.activated();
    assert forall|near: int, far: int|
        1 <= near <= far <= PARTICLE_COUNT implies after.ages[#[trigger] slot_back(after.next, near)]
        <= after.ages[#[trigger] slot_back(after.next, far)] by {
        if near == 1 {
            assert(slot_back(after.next, 1) == ring.next);
        } else {
            assert(slot_back(after.next, near) == slot_back(ring.next, near - 1));
            assert(slot_back(after.next, far) == slot_back(ring.next, far - 1));
            assert(slot_back(ring.next, near - 1) != ring.next);
            assert(slot_back(ring.next, far - 1) != ring.next);
        }
    }
}

/// Ageing keeps a ring well formed.
pub proof fn lemma_ticked_wf(ring: RingView)
    requires
        ring.wf(),
    ensures
        ring.ticked().wf(),
{
    let after = ring.ticked();
    assert forall|near: int, far: int|
        1 <= near <= far <= PARTICLE_COUNT implies after.ages[#[trigger] slot_back(after.next, near)]
        <= after.ages[#[trigger] slot_back(after.next, far)] by {
        assert(ring.ages[slot_back(ring.next, near)] <= ring.ages[slot_back(ring.next, far)]);
    }
}

/// The ring is written round and round: after any number of activations the
/// next slot has moved on by that number, counted around the ring, so that
/// after [`PARTICLE_COUNT`] of them it is where it was.
pub proof fn lemma_activations_go_round(ring: RingView, count: nat)
    requires
        ring.wf(),
    ensures
        ring.activated_times(count).wf(),
        ring.activated_times(count).next == (ring.next + count) % (PARTICLE_COUNT as nat),
        ring.activated_times(PARTICLE_COUNT as nat).next == ring.next,
    decreases count,
{
    if count > 0 {
        lemma_activations_go_round(ring, (count - 1) as nat);
        lemma_activated_wf(ring.activated_times((count - 1) as nat));
    }
    lemma_next_after(ring, PARTICLE_COUNT as nat);
}

/// Where the next slot is after `count` activations.
proof fn lemma_next_after(ring: RingView, count: nat)
    requires
        ring.next < PARTICLE_COUNT,
    ensures
        ring.activated_times(count).next == (ring.next + count) % (PARTICLE_COUNT as nat),
    decreases count,
{
    if count > 0 {
        lemma_next_after(ring, (count - 1) as nat);
    }
}

/// A particle that no activation replaces is spent once it has aged
/// [`SPENT`] times, however old it was.
pub proof fn lemma_spent_after_lifetime(ring: RingView, slot: int)
    requires
        ring.wf(),
        0 <= slot < PARTICLE_COUNT,
    ensures
        !ticked_times(ring, SPENT as nat).live(slot),
{
    lemma_age_after(ring, slot, SPENT as nat);
}

/// The ring after `count` steps of ageing in a row.
pub open spec fn ticked_times(ring: RingView, count: nat) -> RingView
    decreases count,
{
    if count == 0 {
        ring
    } else {
        ticked_times(ring, (count - 1) as nat).ticked()
    }
}

/// Ageing `count` times adds `count` to an age, up to [`SPENT`].
proof fn lemma_age_after(ring: RingView, slot: int, count: nat)
    requires
        ring.wf(),
        0 <= slot < PARTICLE_COUNT,
    ensures
        ticked_times(ring, count).ages.len() == PARTICLE_COUNT,
        ticked_times(ring, count).ages[slot] == if ring.ages[slot] + count < SPENT {
            ring.ages[slot] + count
        } else {
            SPENT as nat
        },
    decreases count,
{
    if count > 0 {
        lemma_age_after(ring, slot, (count - 1) as nat);
    }
}

} // verus!
