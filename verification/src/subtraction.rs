//! Subtraction tasks.

use crate::number::{sample, zero, Number};
use crate::task::{
    compose, lemma_question_names_operands, question, task_of, Error, Task, TaskProducer,
    TaskView, MAX_ATTEMPTS,
};
use rand::rngs::ThreadRng;
use vstd::prelude::*;

verus! {

/// Why no producer of subtractions can be built for results between `min` and `max`, if
/// so, in a number type whose greatest value is `highest`.
pub open spec fn subtraction_fault(min: int, max: int, highest: int) -> Option<Error> {
    if min > max {
        Some(Error::InvertedRange)
    } else if max - min > highest {
        Some(Error::Unrepresentable)
    } else {
        None
    }
}

/// Whether `left - right` is a subtraction for results between `min` and `max`: `left`
/// lies in the range, `right` between zero and the width of the range, and their
/// difference does not fall below the range.
pub open spec fn subtraction_accepts(min: int, max: int, left: int, right: int) -> bool {
    &&& min <= left <= max
    &&& 0 <= right <= max - min
    &&& left - right >= min
}

/// Whether `task` is a subtraction for results between `min` and `max`.
pub open spec fn is_subtraction(min: int, max: int, task: TaskView) -> bool {
    exists|left: int, right: int|
        #[trigger] subtraction_accepts(min, max, left, right) && task == task_of(
            left,
            '-',
            right,
            left - right,
        )
}

/// Every subtraction for results between `min` and `max` asks for the difference of a
/// number from the range and a number between zero and the width of the range, which
/// does not fall below the range, and is answered by that difference: whatever operands
/// and sign its question names, they are these. The answer lies in the range.
pub proof fn lemma_subtraction_in_range(
    min: int,
    max: int,
    task: TaskView,
    left: int,
    sign: char,
    right: int,
)
    requires
        is_subtraction(min, max, task),
        task.text == question(left, sign, right),
    ensures
        sign == '-',
        min <= left <= max,
        0 <= right <= max - min,
        left - right >= min,
        task.answer == left - right,
        min <= task.answer <= max,
{
    let (l, r) = choose|l: int, r: int|
        #[trigger] subtraction_accepts(min, max, l, r) && task == task_of(l, '-', r, l - r);
    lemma_question_names_operands(left, sign, right, l, '-', r);
}

/// A range whose lower bound lies above its upper bound is refused as inverted, and no
/// other range is.
pub proof fn lemma_subtraction_refuses_inverted(min: int, max: int, highest: int)
    ensures
        subtraction_fault(min, max, highest) == Some(Error::InvertedRange) <==> min > max,
{
}

/// A producer of subtractions: the minuend and the difference lie between `result_min`
/// and `result_max`, the subtrahend between zero and the width of that range.
///
/// There is a producer for every range that is not inverted and whose width fits in the
/// number type: see `subtraction_fault`.
pub struct Sub<T: Number> {
    bounds: Bounds<T>,
    rng: ThreadRng,
}

/// The bounds of a producer of subtractions. No value of this type holds bounds that
/// `new` refuses.
struct Bounds<T: Number> {
    result_min: T,
    result_max: T,
}

impl<T: Number> Bounds<T> {
    #[verifier::type_invariant]
    spec fn accepted(self) -> bool {
        subtraction_fault(self.result_min.value(), self.result_max.value(), T::highest()) is None
    }
}

impl<T: Number> Sub<T> {
    /// The least minuend, and the least difference.
    pub closed spec fn result_min(&self) -> int {
        self.bounds.result_min.value()
    }

    /// The greatest minuend.
    pub closed spec fn result_max(&self) -> int {
        self.bounds.result_max.value()
    }

    /// The bounds that the producer was built with, which are bounds that `new` accepts.
    pub fn bounds(&self) -> (bounds: (T, T))
        ensures
            bounds.0.value() == self.result_min(),
            bounds.1.value() == self.result_max(),
            subtraction_fault(self.result_min(), self.result_max(), T::highest()) is None,
    {
        proof {
            use_type_invariant(&self.bounds);
        }
        (self.bounds.result_min, self.bounds.result_max)
    }

    /// A producer of subtractions with minuends and differences in the given range.
    pub fn new(result_min: T, result_max: T) -> (made: Result<Self, Error>)
        ensures
            match made {
                Ok(p) => {
                    &&& subtraction_fault(result_min.value(), result_max.value(), T::highest())
                        is None
                    &&& p.result_min() == result_min.value()
                    &&& p.result_max() == result_max.value()
                },
                Err(e) => subtraction_fault(result_min.value(), result_max.value(), T::highest())
                    == Some(e),
            },
    {
        let min = result_min.widen();
        let max = result_max.widen();
        proof {
            T::limits();
            result_min.within_limits();
            result_max.within_limits();
        }
        if min > max {
            Err(Error::InvertedRange)
        } else if T::narrow(max - min).is_none() {
            Err(Error::Unrepresentable)
        } else {
            Ok(Sub { bounds: Bounds { result_min, result_max }, rng: rand::thread_rng() })
        }
    }

    /// The width of the range, which is the greatest subtrahend.
    pub fn width(&self) -> (w: T)
        ensures
            w.value() == self.result_max() - self.result_min(),
    {
        proof {
            use_type_invariant(&self.bounds);
            T::limits();
            self.bounds.result_min.within_limits();
            self.bounds.result_max.within_limits();
        }
        T::narrow(self.bounds.result_max.widen() - self.bounds.result_min.widen()).unwrap()
    }

    /// The task `left - right`, if the pair is one for this producer.
    pub fn pose(&self, left: T, right: T) -> (posed: Option<Task<T>>)
        ensures
            posed is Some <==> subtraction_accepts(
                self.result_min(),
                self.result_max(),
                left.value(),
                right.value(),
            ),
            posed matches Some(task) ==> task@ == task_of(
                left.value(),
                '-',
                right.value(),
                left.value() - right.value(),
            ),
    {
        proof {
            use_type_invariant(&self.bounds);
            T::limits();
            left.within_limits();
            right.within_limits();
            self.bounds.result_min.within_limits();
            self.bounds.result_max.within_limits();
        }
        let min = self.bounds.result_min.widen();
        let max = self.bounds.result_max.widen();
        let l = left.widen();
        let r = right.widen();
        if l < min || l > max || r < 0 || r > max - min || l - r < min {
            return None;
        }
        let difference = T::narrow(l - r).unwrap();
        proof {
            reveal_strlit(" - ");
        }
        Some(compose(left, " - ", right, difference))
    }

    /// The task that takes nothing from the least minuend, which is one for every
    /// producer.
    pub fn least(&self) -> (task: Task<T>)
        ensures
            subtraction_accepts(self.result_min(), self.result_max(), self.result_min(), 0),
            task@ == task_of(self.result_min(), '-', 0, self.result_min()),
    {
        proof {
            use_type_invariant(&self.bounds);
        }
        self.pose(self.bounds.result_min, zero()).unwrap()
    }
}

impl<T: Number> TaskProducer<T> for Sub<T> {
    open spec fn yields(&self, task: TaskView) -> bool {
        is_subtraction(self.result_min(), self.result_max(), task)
    }

    /// Draws the minuend from `bounds` and the subtrahend from zero up to `width`, until
    /// their difference stays within the range. After `MAX_ATTEMPTS`
    /// pairs in vain, the task is the one that takes nothing from the least minuend.
    fn next(&mut self) -> (task: Task<T>)
        ensures
            final(self).result_min() == old(self).result_min(),
            final(self).result_max() == old(self).result_max(),
    {
        let none: T = zero();
        let width: T = self.width();
        let mut attempts: u32 = 0;
        while attempts < MAX_ATTEMPTS
            invariant
                self.bounds == old(self).bounds,
                none.value() == 0,
                width.value() == self.result_max() - self.result_min(),
            decreases MAX_ATTEMPTS - attempts,
        {
            proof {
                use_type_invariant(&self.bounds);
            }
            let left = sample(&mut self.rng, self.bounds.result_min, self.bounds.result_max);
            let right = sample(&mut self.rng, none, width);
            if let Some(task) = self.pose(left, right) {
                assert(subtraction_accepts(
                    self.result_min(),
                    self.result_max(),
                    left.value(),
                    right.value(),
                ));
                return task;
            }
            attempts += 1;
        }
        self.least()
    }
}

} // verus!
