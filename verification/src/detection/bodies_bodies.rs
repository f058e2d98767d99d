//! Collision tracking between rigid bodies.

use std::rc::Rc;
use vstd::prelude::*;
use crate::detection::activation_manager::ActivationManager;
use crate::detection::constraint::Constraint;
use crate::detection::contact::Contact;
use crate::math::scalar::Scalar;
use crate::object::rigid_body::RigidBody;

verus! {

/// The table of `ncollide3d` that picks a contact algorithm for a pair of
/// shapes. Nothing is claimed of it: it is only carried to where the narrow
/// phase runs.
#[verifier::external_type_specification]
#[verifier::external_body]
pub struct ExDefaultContactDispatcher(ncollide3d::narrow_phase::DefaultContactDispatcher);

/// Decides which pairs of bodies are worth a narrow phase.
pub struct BodyBodyDispatcher {
    geom_dispatcher: Rc<ncollide3d::narrow_phase::DefaultContactDispatcher>,
}

/// Whether the pair of the bodies at `a` and `b` can collide usefully: the
/// two are different bodies, and at least one of them can move.
pub open spec fn valid_pair(bodies: Seq<RigidBody>, a: int, b: int) -> bool {
    a != b && (bodies[a].movable() || bodies[b].movable())
}

impl BodyBodyDispatcher {
    /// A dispatcher that hands pairs of shapes to `d`.
    pub fn new(d: Rc<ncollide3d::narrow_phase::DefaultContactDispatcher>) -> (r: BodyBodyDispatcher)
        ensures
            r.geom_dispatcher() == d,
    {
        BodyBodyDispatcher { geom_dispatcher: d }
    }

    pub closed spec fn geom_dispatcher(&self) -> Rc<ncollide3d::narrow_phase::DefaultContactDispatcher> {
        self.geom_dispatcher
    }

    /// The table that picks the contact algorithm of a valid pair.
    pub fn geometry_dispatcher(&self) -> (r: &Rc<ncollide3d::narrow_phase::DefaultContactDispatcher>)
        ensures
            *r == self.geom_dispatcher(),
    {
        &self.geom_dispatcher
    }

    /// Whether the bodies at `a` and `b` form a pair to track.
    pub fn is_valid(&self, bodies: &[RigidBody], a: usize, b: usize) -> (r: bool)
        requires
            a < bodies.len(),
            b < bodies.len(),
        ensures
            r == valid_pair(bodies@, a as int, b as int),
            a == b ==> !r,
            !bodies[a as int].movable() && !bodies[b as int].movable() ==> !r,
            a != b && (bodies[a as int].movable() || bodies[b as int].movable()) ==> r,
    {
        if a == b {
            false
        } else {
            bodies[a].can_move() || bodies[b].can_move()
        }
    }
}

/// A pair of bodies that the broad phase found close to each other, with the
/// contacts that the narrow phase last found between them.
#[derive(Debug, PartialEq, Eq)]
pub struct TrackedPair {
    pub body1: usize,
    pub body2: usize,
    pub contacts: Vec<Contact>,
}

impl TrackedPair {
    /// A pair without contacts.
    pub fn new(body1: usize, body2: usize) -> (r: TrackedPair)
        ensures
            r.body1 == body1,
            r.body2 == body2,
            r.contacts@ == Seq::<Contact>::empty(),
    {
        TrackedPair { body1, body2, contacts: Vec::new() }
    }

    /// The number of contacts between the two bodies.
    pub fn num_colls(&self) -> (r: usize)
        ensures
            r == self.contacts@.len(),
    {
        self.contacts.len()
    }
}

/// Whether a number of contacts passes from zero to more, or from more to zero.
pub open spec fn crosses_zero(prior: nat, new: nat) -> bool {
    (prior == 0) != (new == 0)
}

/// The wake requests that one pair makes when the number of its contacts
/// goes from `prior` to `new`: both bodies, once each, where the number
/// passes to or from zero, and none otherwise.
pub open spec fn pair_reports(body1: usize, body2: usize, prior: nat, new: nat) -> Seq<usize> {
    if crosses_zero(prior, new) {
        seq![body1, body2]
    } else {
        Seq::<usize>::empty()
    }
}

/// The wake requests of a whole update, pair after pair: `pairs` holds the
/// contacts before the narrow phase ran, `detected` those that it found.
pub open spec fn wake_reports(pairs: Seq<TrackedPair>, detected: Seq<Vec<Contact>>) -> Seq<usize>
    decreases pairs.len(),
{
    if pairs.len() == 0 || detected.len() == 0 {
        Seq::<usize>::empty()
    } else {
        wake_reports(pairs.drop_last(), detected.drop_last()) + pair_reports(
            pairs.last().body1,
            pairs.last().body2,
            pairs.last().contacts@.len(),
            detected.last()@.len(),
        )
    }
}

/// Decides whether a pair has to wake its bodies: whether the number of its
/// contacts passed from zero to more, or from more to zero.
pub fn contact_transition(prior: usize, new: usize) -> (wake: bool)
    ensures
        wake == crosses_zero(prior as nat, new as nat),
{
    if prior == 0 && new != 0 {
        true
    } else if prior != 0 && new == 0 {
        true
    } else {
        false
    }
}

/// The constraints of one pair: one for each of its contacts, in their order.
pub open spec fn pair_constraints(pair: TrackedPair) -> Seq<Constraint> {
    Seq::new(
        pair.contacts@.len(),
        |k: int| Constraint::RBRB(pair.body1, pair.body2, pair.contacts@[k]),
    )
}

/// The constraints of all pairs, pair after pair.
pub open spec fn harvested(pairs: Seq<TrackedPair>) -> Seq<Constraint>
    decreases pairs.len(),
{
    if pairs.len() == 0 {
        Seq::<Constraint>::empty()
    } else {
        harvested(pairs.drop_last()) + pair_constraints(pairs.last())
    }
}

/// The candidates that the ray hits, each with its time of impact, from the
/// last candidate to the first.
pub open spec fn ray_hits(candidates: Seq<(usize, Option<Scalar>)>) -> Seq<(usize, Scalar)>
    decreases candidates.len(),
{
    if candidates.len() == 0 {
        Seq::<(usize, Scalar)>::empty()
    } else {
        (match candidates.last().1 {
            Some(toi) => seq![(candidates.last().0, toi)],
            None => Seq::<(usize, Scalar)>::empty(),
        }) + ray_hits(candidates.drop_last())
    }
}

/// Whether the body at `i` has to wake up when the sleeping body at `o`
/// leaves: it is another body, it sleeps too, and it can move.
pub open spec fn wakes_on_removal(bodies: Seq<RigidBody>, o: int, i: int) -> bool {
    i != o && !bodies[i].active && bodies[i].movable()
}

/// Those of the bodies `overlapping` that have to wake up when the sleeping
/// body at `o` leaves, in their order.
pub open spec fn sleeping_neighbors(bodies: Seq<RigidBody>, o: int, overlapping: Seq<usize>) -> Seq<
    usize,
>
    decreases overlapping.len(),
{
    if overlapping.len() == 0 {
        Seq::<usize>::empty()
    } else {
        sleeping_neighbors(bodies, o, overlapping.drop_last()) + (if wakes_on_removal(
            bodies,
            o,
            overlapping.last() as int,
        ) {
            seq![overlapping.last()]
        } else {
            Seq::<usize>::empty()
        })
    }
}

/// The wake requests made when the body at `o` leaves: its sleeping
/// neighbors where it sleeps itself, none where it is awake.
pub open spec fn removal_reports(bodies: Seq<RigidBody>, o: int, overlapping: Seq<usize>) -> Seq<
    usize,
> {
    if bodies[o].active {
        Seq::<usize>::empty()
    } else {
        sleeping_neighbors(bodies, o, overlapping)
    }
}

/// Collision tracking between rigid bodies.
pub struct BodiesBodies {
    geom_geom_dispatcher: Rc<ncollide3d::narrow_phase::DefaultContactDispatcher>,
    contacts_collector: Vec<Contact>,
}

impl BodiesBodies {
    /// The staging buffer is empty between two calls.
    pub closed spec fn wf(&self) -> bool {
        self.contacts_collector@.len() == 0
    }

    pub closed spec fn geom_dispatcher(&self) -> Rc<ncollide3d::narrow_phase::DefaultContactDispatcher> {
        self.geom_geom_dispatcher
    }

    /// A tracker whose narrow phase picks its algorithms from `dispatcher`.
    pub fn new(dispatcher: Rc<ncollide3d::narrow_phase::DefaultContactDispatcher>) -> (r: BodiesBodies)
        ensures
            r.wf(),
            r.geom_dispatcher() == dispatcher,
    {
        BodiesBodies { geom_geom_dispatcher: dispatcher, contacts_collector: Vec::new() }
    }

    /// The table that the narrow phase picks its algorithms from.
    pub fn geometry_dispatcher(&self) -> (r: &Rc<ncollide3d::narrow_phase::DefaultContactDispatcher>)
        ensures
            *r == self.geom_dispatcher(),
    {
        &self.geom_geom_dispatcher
    }

    /// Takes in the contacts that the narrow phase found for each tracked
    /// pair, `detected[i]` for `pairs[i]`, and asks for both bodies of a pair
    /// to be woken where contacts appeared between bodies that had none, or
    /// where the last contact vanished.
    pub fn update(
        &mut self,
        pairs: &mut Vec<TrackedPair>,
        detected: Vec<Vec<Contact>>,
        activation: &mut ActivationManager,
    )
        requires
            old(self).wf(),
            detected.len() == old(pairs).len(),
        ensures
            final(self).wf(),
            final(self).geom_dispatcher() == old(self).geom_dispatcher(),
            final(pairs).len() == old(pairs).len(),
            forall|i: int|
                0 <= i < old(pairs).len() ==> {
                    &&& (#[trigger] final(pairs)[i]).body1 == old(pairs)[i].body1
                    &&& final(pairs)[i].body2 == old(pairs)[i].body2
                    &&& final(pairs)[i].contacts == detected[i]
                },
            final(activation)@ == old(activation)@ + wake_reports(old(pairs)@, detected@),
    {
        let mut i: usize = 0;
        for contacts in it: detected
            invariant
                i == it.index(),
                pairs.len() == old(pairs).len(),
                detected.len() == old(pairs).len(),
                forall|j: int|
                    0 <= j < i ==> {
                        &&& (#[trigger] pairs[j]).body1 == old(pairs)[j].body1
                        &&& pairs[j].body2 == old(pairs)[j].body2
                        &&& pairs[j].contacts == detected[j]
                    },
                forall|j: int| i <= j < pairs.len() ==> pairs[j] == old(pairs)[j],
                activation@ == old(activation)@ + wake_reports(
                    old(pairs)@.take(i as int),
                    detected@.take(i as int),
                ),
        {
            let ncols = pairs[i].num_colls();
            let new_ncols = contacts.len();
            let body1 = pairs[i].body1;
            let body2 = pairs[i].body2;
            pairs[i].contacts = contacts;
            if contact_transition(ncols, new_ncols) {
                activation.will_activate(body1);
                activation.will_activate(body2);
            }
            proof {
                let next = i as int + 1;
                assert(old(pairs)@.take(next).drop_last() =~= old(pairs)@.take(i as int));
                assert(detected@.take(next).drop_last() =~= detected@.take(i as int));
                assert(activation@ =~= old(activation)@ + wake_reports(
                    old(pairs)@.take(next),
                    detected@.take(next),
                ));
            }
            i = i + 1;
        }
        proof {
            assert(old(pairs)@.take(i as int) =~= old(pairs)@);
            assert(detected@.take(i as int) =~= detected@);
        }
    }

    /// Appends to `out` one constraint for each contact of each tracked pair.
    /// The contacts of a pair pass through a staging buffer that is emptied
    /// before the next pair is looked at.
    pub fn interferences(&mut self, out: &mut Vec<Constraint>, pairs: &Vec<TrackedPair>)
        requires
            old(self).wf(),
        ensures
            final(self).wf(),
            final(self).geom_dispatcher() == old(self).geom_dispatcher(),
            final(out)@ == old(out)@ + harvested(pairs@),
    {
        let mut i: usize = 0;
        while i < pairs.len()
            invariant
                i <= pairs.len(),
                self.wf(),
                self.geom_dispatcher() == old(self).geom_dispatcher(),
                out@ == old(out)@ + harvested(pairs@.take(i as int)),
            decreases pairs.len() - i,
        {
            let pair = &pairs[i];
            let mut k: usize = 0;
            while k < pair.contacts.len()
                invariant
                    k <= pair.contacts.len(),
                    self.geom_dispatcher() == old(self).geom_dispatcher(),
                    self.contacts_collector@ == pair.contacts@.take(k as int),
                decreases pair.contacts.len() - k,
            {
                self.contacts_collector.push(pair.contacts[k]);
                proof {
                    assert(pair.contacts@.take(k as int + 1) =~= pair.contacts@.take(
                        k as int,
                    ).push(pair.contacts@[k as int]));
                }
                k = k + 1;
            }
            proof {
                assert(pair.contacts@.take(k as int) =~= pair.contacts@);
            }
            let ghost before = out@;
            let mut c: usize = 0;
            while c < self.contacts_collector.len()
                invariant
                    c <= self.contacts_collector.len(),
                    self.geom_dispatcher() == old(self).geom_dispatcher(),
                    self.contacts_collector@ == pair.contacts@,
                    out@ == before + pair_constraints(*pair).take(c as int),
                decreases self.contacts_collector.len() - c,
            {
                out.push(Constraint::RBRB(pair.body1, pair.body2, self.contacts_collector[c]));
                proof {
                    assert(pair_constraints(*pair).take(c as int + 1) =~= pair_constraints(
                        *pair,
                    ).take(c as int).push(pair_constraints(*pair)[c as int]));
                }
                c = c + 1;
            }
            self.contacts_collector.clear();
            proof {
                let next = i as int + 1;
                assert(pair_constraints(*pair).take(c as int) =~= pair_constraints(*pair));
                assert(pairs@.take(next).drop_last() =~= pairs@.take(i as int));
                assert(pairs@.take(next).last() == *pair);
                assert(out@ =~= old(out)@ + harvested(pairs@.take(next)));
            }
            i = i + 1;
        }
        proof {
            assert(pairs@.take(i as int) =~= pairs@);
        }
    }

    /// Appends to `out` each candidate that the ray hits, with its time of
    /// impact. `candidates` holds the bodies that the broad phase found along
    /// the ray, each with the time at which the ray meets its shape, if it
    /// does. They are looked at from the last to the first, and nothing is
    /// left out but the candidates that the ray misses.
    pub fn interferences_with_ray(
        &mut self,
        candidates: &[(usize, Option<Scalar>)],
        out: &mut Vec<(usize, Scalar)>,
    )
        ensures
            *final(self) == *old(self),
            final(out)@ == old(out)@ + ray_hits(candidates@),
    {
        let mut i: usize = candidates.len();
        proof {
            assert(candidates@.take(i as int) =~= candidates@);
        }
        while i > 0
            invariant
                i <= candidates.len(),
                *self == *old(self),
                old(out)@ + ray_hits(candidates@) == out@ + ray_hits(candidates@.take(i as int)),
            decreases i,
        {
            proof {
                assert(candidates@.take(i as int).drop_last() =~= candidates@.take(i as int - 1));
                assert(candidates@.take(i as int).last() == candidates@[i as int - 1]);
            }
            i = i - 1;
            let (body, toi) = candidates[i];
            match toi {
                None => {},
                Some(t) => {
                    out.push((body, t));
                    proof {
                        assert(out@ + ray_hits(candidates@.take(i as int)) =~= old(out)@
                            + ray_hits(candidates@));
                    }
                },
            }
        }
        proof {
            assert(out@ =~= out@ + ray_hits(candidates@.take(0)));
        }
    }

    /// Prepares for the body at `o` to leave the simulation. Where it
    /// sleeps, every other body of `overlapping` that sleeps too and can
    /// move is asked to wake up, so that no body stays asleep against a body
    /// that is gone. `overlapping` holds the bodies whose bounding volume
    /// meets that of the leaving body; it is not looked at where the leaving
    /// body is awake.
    pub fn remove(
        &mut self,
        o: usize,
        bodies: &[RigidBody],
        overlapping: &[usize],
        activation: &mut ActivationManager,
    )
        requires
            o < bodies.len(),
            forall|k: int| 0 <= k < overlapping.len() ==> overlapping[k] < bodies.len(),
        ensures
            *final(self) == *old(self),
            final(activation)@ == old(activation)@ + removal_reports(
                bodies@,
                o as int,
                overlapping@,
            ),
    {
        if !bodies[o].is_active() {
            let mut k: usize = 0;
            while k < overlapping.len()
                invariant
                    k <= overlapping.len(),
                    o < bodies.len(),
                    forall|j: int| 0 <= j < overlapping.len() ==> overlapping[j] < bodies.len(),
                    activation@ == old(activation)@ + sleeping_neighbors(
                        bodies@,
                        o as int,
                        overlapping@.take(k as int),
                    ),
                decreases overlapping.len() - k,
            {
                let i = overlapping[k];
                if i != o && !bodies[i].is_active() && bodies[i].can_move() {
                    activation.will_activate(i);
                }
                proof {
                    let next = k as int + 1;
                    assert(overlapping@.take(next).drop_last() =~= overlapping@.take(k as int));
                    assert(overlapping@.take(next).last() == i);
                    assert(activation@ =~= old(activation)@ + sleeping_neighbors(
                        bodies@,
                        o as int,
                        overlapping@.take(next),
                    ));
                }
                k = k + 1;
            }
            proof {
                assert(overlapping@.take(k as int) =~= overlapping@);
            }
        }
    }
}

/// The wake requests of two runs of pairs, one after the other, are those of
/// the first run followed by those of the second.
pub proof fn lemma_wake_reports_concat(
    first: Seq<TrackedPair>,
    first_detected: Seq<Vec<Contact>>,
    second: Seq<TrackedPair>,
    second_detected: Seq<Vec<Contact>>,
)
    requires
        first.len() == first_detected.len(),
        second.len() == second_detected.len(),
    ensures
        wake_reports(first + second, first_detected + second_detected) == wake_reports(
            first,
            first_detected,
        ) + wake_reports(second, second_detected),
    decreases second.len(),
{
    if second.len() == 0 {
        assert(first + second =~= first);
        assert(first_detected + second_detected =~= first_detected);
        assert(wake_reports(first, first_detected) + wake_reports(second, second_detected)
            =~= wake_reports(first, first_detected));
    } else {
        lemma_wake_reports_concat(
            first,
            first_detected,
            second.drop_last(),
            second_detected.drop_last(),
        );
        assert((first + second).drop_last() =~= first + second.drop_last());
        assert((first_detected + second_detected).drop_last() =~= first_detected
            + second_detected.drop_last());
        assert((first + second).last() == second.last());
        assert((first_detected + second_detected).last() == second_detected.last());
        assert(wake_reports(first + second, first_detected + second_detected) =~= wake_reports(
            first,
            first_detected,
        ) + wake_reports(second, second_detected));
    }
}

/// In the wake requests of an update each pair stands with its own requests,
/// between those of the pairs before it and those of the pairs after it:
/// its two bodies, once each, where the number of its contacts passed to or
/// from zero, and nothing where it stayed zero or stayed above zero.
pub proof fn lemma_pair_reports_once(
    pairs: Seq<TrackedPair>,
    detected: Seq<Vec<Contact>>,
    i: int,
)
    requires
        pairs.len() == detected.len(),
        0 <= i < pairs.len(),
    ensures
        wake_reports(pairs, detected) == wake_reports(pairs.take(i), detected.take(i))
            + pair_reports(
            pairs[i].body1,
            pairs[i].body2,
            pairs[i].contacts@.len(),
            detected[i]@.len(),
        ) + wake_reports(pairs.skip(i + 1), detected.skip(i + 1)),
        crosses_zero(pairs[i].contacts@.len(), detected[i]@.len()) ==> pair_reports(
            pairs[i].body1,
            pairs[i].body2,
            pairs[i].contacts@.len(),
            detected[i]@.len(),
        ) == seq![pairs[i].body1, pairs[i].body2],
        !crosses_zero(pairs[i].contacts@.len(), detected[i]@.len()) ==> pair_reports(
            pairs[i].body1,
            pairs[i].body2,
            pairs[i].contacts@.len(),
            detected[i]@.len(),
        ) == Seq::<usize>::empty(),
{
    let head = pairs.take(i + 1);
    let head_detected = detected.take(i + 1);
    lemma_wake_reports_concat(head, head_detected, pairs.skip(i + 1), detected.skip(i + 1));
    assert(head + pairs.skip(i + 1) =~= pairs);
    assert(head_detected + detected.skip(i + 1) =~= detected);
    assert(head.drop_last() =~= pairs.take(i));
    assert(head_detected.drop_last() =~= detected.take(i));
    assert(head.last() == pairs[i]);
    assert(head_detected.last() == detected[i]);
}

} // verus!
