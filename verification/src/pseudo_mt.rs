//! Running tasks in an order that chance decides.

use vstd::prelude::*;
use rand::rngs::ThreadRng;
use rand::Rng;

verus! {

/// The random number generator of a thread.
#[verifier::external_type_specification]
#[verifier::external_body]
pub struct ExThreadRng(ThreadRng);

/// `rand::thread_rng`: the random number generator of this thread.
#[verifier::external_body]
fn thread_generator() -> ThreadRng {
    rand::thread_rng()
}

/// `Rng::gen_range` on the range from zero up to, not including, `n`: some
/// number of that range.
#[verifier::external_body]
fn pick(rng: &mut ThreadRng, n: usize) -> (r: usize)
    requires
        n > 0,
    ensures
        r < n,
{
    rng.gen_range(0..n)
}

/// Tasks that wait to be run, in no order that anyone could count on.
pub struct PseudoMultithreading<T> {
    tasks: Vec<T>,
    rng: ThreadRng,
}

impl<T> PseudoMultithreading<T> {
    /// The tasks that wait, in the order in which they were added.
    pub closed spec fn waiting(self) -> Seq<T> {
        self.tasks@
    }

    /// No tasks.
    pub fn new() -> (r: Self)
        ensures
            r.waiting() == Seq::<T>::empty(),
    {
        PseudoMultithreading { tasks: Vec::new(), rng: thread_generator() }
    }

    /// Adds a task.
    pub fn add(&mut self, f: T)
        ensures
            final(self).waiting() == old(self).waiting().push(f),
    {
        self.tasks.push(f);
    }

    /// Takes out the task at `index`.
    pub fn take(&mut self, index: usize) -> (f: T)
        requires
            index < old(self).waiting().len(),
        ensures
            f == old(self).waiting()[index as int],
            final(self).waiting() == old(self).waiting().remove(index as int),
    {
        self.tasks.remove(index)
    }

    /// Takes out all tasks, each time one that chance picks among those that
    /// still wait, and returns them in the order in which they are to be run:
    /// every task once, none twice.
    pub fn run(&mut self) -> (order: Vec<T>)
        ensures
            final(self).waiting() == Seq::<T>::empty(),
            order@.to_multiset() == old(self).waiting().to_multiset(),
    {
        let mut order: Vec<T> = Vec::new();
        proof {
            order@.to_multiset_ensures();
            vstd::multiset::lemma_multiset_empty_len(order@.to_multiset());
            assert(order@.to_multiset().add(self.tasks@.to_multiset()) =~= old(
                self,
            ).waiting().to_multiset());
        }
        while self.tasks.len() > 0
            invariant
                order@.to_multiset().add(self.tasks@.to_multiset()) == old(
                    self,
                ).waiting().to_multiset(),
            decreases self.tasks@.len(),
        {
            let r = pick(&mut self.rng, self.tasks.len());
            let ghost before = self.tasks@;
            let ghost done = order@;
            let f = self.take(r);
            order.push(f);
            proof {
                vstd::seq_lib::to_multiset_build(done, f);
                vstd::seq_lib::to_multiset_remove(before, r as int);
                before.to_multiset_ensures();
                assert(before.contains(f));
            }
            assert(order@.to_multiset().add(self.tasks@.to_multiset()) =~= done.to_multiset().add(
                before.to_multiset(),
            ));
        }
        proof {
            assert(self.tasks@ =~= Seq::<T>::empty());
            self.tasks@.to_multiset_ensures();
            vstd::multiset::lemma_multiset_empty_len(self.tasks@.to_multiset());
            assert(order@.to_multiset().add(self.tasks@.to_multiset()) =~= order@.to_multiset());
        }
        order
    }
}

} // verus!
