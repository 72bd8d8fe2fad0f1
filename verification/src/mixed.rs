//! Mixtures of task producers.

use crate::number::{sample, Number};
use crate::task::{Error, Task, TaskProducer, TaskView};
use rand::rngs::ThreadRng;
use vstd::prelude::*;

verus! {

/// A list that holds at least one item: the first apart from the others.
struct NonEmpty<X> {
    first: X,
    others: Vec<X>,
}

impl<X> NonEmpty<X> {
    /// The items in order.
    spec fn items(&self) -> Seq<X> {
        seq![self.first] + self.others@
    }

    /// The list of the items of `list`, unless there is none.
    fn from_vec(list: Vec<X>) -> (made: Option<Self>)
        ensures
            made is Some <==> list@.len() > 0,
            made matches Some(l) ==> l.items() == list@,
    {
        let ghost given = list@;
        let mut others = list;
        if others.len() == 0 {
            return None;
        }
        let first = others.remove(0);
        let made = NonEmpty { first, others };
        proof {
            given.remove_ensures(0);
            assert(made.items() =~= given);
        }
        Some(made)
    }
}

/// A task producer where you can mix different task producers. A task producer is
/// randomly selected upon each call to next.
///
/// Each member is as likely as any other: a producer that is given twice is drawn twice
/// as often.
#[verifier::reject_recursive_types(T)]
pub struct Mixed<T: Number> {
    task_producers: NonEmpty<Box<dyn TaskProducer<T>>>,
    rng: ThreadRng,
}

impl<T: Number> Mixed<T> {
    /// The producers of the mixture, in the order in which they were given. There is
    /// at least one.
    pub closed spec fn members(&self) -> Seq<Box<dyn TaskProducer<T>>> {
        self.task_producers.items()
    }

    /// Every mixture holds at least one producer.
    pub proof fn lemma_not_empty(&self)
        ensures
            self.members().len() > 0,
    {
    }

    /// The index of the last member, which is one less than the number of members.
    pub fn last_index(&self) -> (index: usize)
        ensures
            index == self.members().len() - 1,
    {
        self.task_producers.others.len()
    }

    /// A mixture of the given producers, which must be at least one.
    pub fn new(task_producers: Vec<Box<dyn TaskProducer<T>>>) -> (made: Result<Self, Error>)
        ensures
            made is Err <==> task_producers@.len() == 0,
            match made {
                Ok(mixed) => mixed.members() == task_producers@,
                Err(e) => e == Error::EmptyMixture,
            },
    {
        match NonEmpty::from_vec(task_producers) {
            Some(list) => Ok(Mixed { task_producers: list, rng: rand::thread_rng() }),
            None => Err(Error::EmptyMixture),
        }
    }

    /// Has the member at `index` yield a task, if there is such a member. The others are
    /// left as they are.
    pub fn delegate(&mut self, index: usize) -> (task: Option<Task<T>>)
        ensures
            task is Some <==> index < old(self).members().len(),
            task matches Some(t) ==> old(self).members()[index as int].yields(t@),
            final(self).members().len() == old(self).members().len(),
            forall|i: int, t: TaskView|
                0 <= i < old(self).members().len() ==> (#[trigger] final(self).members()[i].yields(
                    t,
                )) == old(self).members()[i].yields(t),
    {
        if index == 0 {
            let task = self.task_producers.first.next();
            Some(task)
        } else if index - 1 < self.task_producers.others.len() {
            let task = self.task_producers.others[index - 1].next();
            Some(task)
        } else {
            None
        }
    }
}

impl<T: Number> TaskProducer<T> for Mixed<T> {
    open spec fn yields(&self, task: TaskView) -> bool {
        exists|i: int| 0 <= i < self.members().len() && (#[trigger] self.members()[i]).yields(task)
    }

    /// Draws an index from zero to `last_index`, each as likely as any other, and has
    /// the member at that index yield the task.
    fn next(&mut self) -> (task: Task<T>)
        ensures
            final(self).members().len() == old(self).members().len(),
    {
        let last = self.last_index();
        let index: usize = sample(&mut self.rng, 0, last);
        let task = self.delegate(index).unwrap();
        proof {
            let before = old(self).members();
            let after = self.members();
            assert(before[index as int].yields(task@));
            assert forall|t: TaskView| self.yields(t) == old(self).yields(t) by {
                if self.yields(t) {
                    let i = choose|i: int| 0 <= i < after.len() && (#[trigger] after[i]).yields(t);
                    assert(before[i].yields(t));
                }
                if old(self).yields(t) {
                    let i = choose|i: int| 0 <= i < before.len() && (#[trigger] before[i]).yields(t);
                    assert(after[i].yields(t));
                }
            }
        }
        task
    }
}

} // verus!
