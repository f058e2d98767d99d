//! The queue of wake requests.

use vstd::prelude::*;
use crate::object::rigid_body::RigidBody;

verus! {

/// The requests to wake bodies up, in the order in which they were made.
///
/// Collision tracking only ever asks for a body to be woken; whoever owns the
/// bodies drains the queue and applies the requests. A body may be asked for
/// more than once: the bodies to wake form a set.
pub struct ActivationManager {
    to_activate: Vec<usize>,
}

impl View for ActivationManager {
    type V = Seq<usize>;

    closed spec fn view(&self) -> Seq<usize> {
        self.to_activate@
    }
}

impl ActivationManager {
    /// A queue without requests.
    pub fn new() -> (r: ActivationManager)
        ensures
            r@ == Seq::<usize>::empty(),
    {
        ActivationManager { to_activate: Vec::new() }
    }

    /// The bodies that were asked for at least once.
    pub open spec fn woken(self) -> Set<usize> {
        self@.to_set()
    }

    /// Asks for `body` to be woken up.
    pub fn will_activate(&mut self, body: usize)
        ensures
            final(self)@ == old(self)@.push(body),
    {
        self.to_activate.push(body);
    }

    /// The requests made so far, oldest first.
    pub fn requests(&self) -> (r: &Vec<usize>)
        ensures
            r@ == self@,
    {
        &self.to_activate
    }

    /// Forgets every request.
    pub fn clear(&mut self)
        ensures
            final(self)@ == Seq::<usize>::empty(),
    {
        self.to_activate.clear();
    }

    /// Applies the requests and forgets them: every body of `bodies` that was
    /// asked for is awake afterwards, and nothing else changes. A request
    /// for a place beyond the list wakes nobody.
    pub fn apply(&mut self, bodies: &mut [RigidBody])
        ensures
            final(self)@ == Seq::<usize>::empty(),
            final(bodies).len() == old(bodies).len(),
            forall|i: int|
                0 <= i < old(bodies).len() ==> #[trigger] final(bodies)[i] == woken_body(
                    old(bodies)[i],
                    old(self).woken().contains(i as usize),
                ),
    {
        let mut k: usize = 0;
        while k < self.to_activate.len()
            invariant
                k <= self.to_activate.len(),
                self.to_activate@ == old(self)@,
                bodies.len() == old(bodies).len(),
                forall|i: int|
                    0 <= i < old(bodies).len() ==> #[trigger] bodies[i] == woken_body(
                        old(bodies)[i],
                        old(self)@.take(k as int).contains(i as usize),
                    ),
            decreases self.to_activate.len() - k,
        {
            let place = self.to_activate[k];
            proof {
                let seen = old(self)@.take(k as int);
                let next = old(self)@.take(k as int + 1);
                assert(next =~= seen.push(place));
                assert forall|b: usize| next.contains(b) <==> (seen.contains(b) || b == place) by {
                    if seen.contains(b) {
                        let j = choose|j: int| 0 <= j < seen.len() && seen[j] == b;
                        assert(next[j] == b);
                    }
                    if b == place {
                        assert(next[k as int] == b);
                    }
                }
            }
            if place < bodies.len() {
                let mut body = bodies[place];
                body.active = true;
                bodies[place] = body;
            }
            k = k + 1;
        }
        proof {
            assert(old(self)@.take(k as int) =~= old(self)@);
        }
        self.to_activate.clear();
    }
}

/// The body `body`, awake where `wake` holds and as it is otherwise.
pub open spec fn woken_body(body: RigidBody, wake: bool) -> RigidBody {
    if wake {
        RigidBody { active: true, ..body }
    } else {
        body
    }
}

/// Asking twice for a body wakes the same bodies as asking once.
pub proof fn lemma_will_activate_idempotent(requests: Seq<usize>, body: usize)
    ensures
        requests.push(body).push(body).to_set() == requests.push(body).to_set(),
{
    let once = requests.push(body);
    let twice = once.push(body);
    assert forall|b: usize| twice.to_set().contains(b) <==> once.to_set().contains(b) by {
        if twice.contains(b) {
            let i = choose|i: int| 0 <= i < twice.len() && twice[i] == b;
            if i < once.len() {
                assert(once[i] == b);
            } else {
                assert(once[once.len() - 1] == b);
            }
        }
        if once.contains(b) {
            let i = choose|i: int| 0 <= i < once.len() && once[i] == b;
            assert(twice[i] == b);
        }
    }
    assert(twice.to_set() =~= once.to_set());
}

} // verus!
