//! Addition tasks.

use crate::number::{sample, Number};
use crate::task::{
    compose, lemma_question_names_operands, question, task_of, Error, Task, TaskProducer,
    TaskView, MAX_ATTEMPTS,
};
use rand::rngs::ThreadRng;
use vstd::prelude::*;

verus! {

/// Why no producer of additions can be built for results between `min` and `max`, if so,
/// in a number type whose least value is `lowest`.
pub open spec fn addition_fault(min: int, max: int, lowest: int) -> Option<Error> {
    if min > max {
        Some(Error::InvertedRange)
    } else if min + min < lowest {
        Some(Error::Unrepresentable)
    } else if min + min > max {
        Some(Error::NoSolution)
    } else {
        None
    }
}

/// Whether `left + right` is an addition for results between `min` and `max`: both
/// operands lie in the range, and their sum does not exceed it.
pub open spec fn addition_accepts(min: int, max: int, left: int, right: int) -> bool {
    &&& min <= left <= max
    &&& min <= right <= max
    &&& left + right <= max
}

/// Whether `task` is an addition for results between `min` and `max`.
pub open spec fn is_addition(min: int, max: int, task: TaskView) -> bool {
    exists|left: int, right: int|
        #[trigger] addition_accepts(min, max, left, right) && task == task_of(
            left,
            '+',
            right,
            left + right,
        )
}

/// Every addition for results between `min` and `max` asks for the sum of two numbers
/// from the range, which does not exceed the range, and is answered by that sum:
/// whatever operands and sign its question names, they are these. The answer is at
/// least twice `min`.
pub proof fn lemma_addition_in_range(
    min: int,
    max: int,
    task: TaskView,
    left: int,
    sign: char,
    right: int,
)
    requires
        is_addition(min, max, task),
        task.text == question(left, sign, right),
    ensures
        sign == '+',
        min <= left <= max,
        min <= right <= max,
        left + right <= max,
        task.answer == left + right,
        min + min <= task.answer <= max,
{
    let (l, r) = choose|l: int, r: int|
        #[trigger] addition_accepts(min, max, l, r) && task == task_of(l, '+', r, l + r);
    lemma_question_names_operands(left, sign, right, l, '+', r);
}

/// A range whose lower bound lies above its upper bound is refused as inverted, and no
/// other range is.
pub proof fn lemma_addition_refuses_inverted(min: int, max: int, lowest: int)
    ensures
        addition_fault(min, max, lowest) == Some(Error::InvertedRange) <==> min > max,
{
}

/// A producer of additions: both operands lie between `result_min` and `result_max`,
/// and their sum stays at or below `result_max`.
///
/// There is a producer for every range that is not inverted, whose least sum fits in
/// the number type and in which at least one sum lies: see `addition_fault`.
pub struct Add<T: Number> {
    bounds: Bounds<T>,
    rng: ThreadRng,
}

/// The bounds of a producer of additions. No value of this type holds bounds that `new`
/// refuses.
struct Bounds<T: Number> {
    result_min: T,
    result_max: T,
}

impl<T: Number> Bounds<T> {
    #[verifier::type_invariant]
    spec fn accepted(self) -> bool {
        addition_fault(self.result_min.value(), self.result_max.value(), T::lowest()) is None
    }
}

impl<T: Number> Add<T> {
    /// The least operand.
    pub closed spec fn result_min(&self) -> int {
        self.bounds.result_min.value()
    }

    /// The greatest operand, and the greatest sum.
    pub closed spec fn result_max(&self) -> int {
        self.bounds.result_max.value()
    }

    /// The bounds that the producer was built with, which are bounds that `new` accepts.
    pub fn bounds(&self) -> (bounds: (T, T))
        ensures
            bounds.0.value() == self.result_min(),
            bounds.1.value() == self.result_max(),
            addition_fault(self.result_min(), self.result_max(), T::lowest()) is None,
    {
        proof {
            use_type_invariant(&self.bounds);
        }
        (self.bounds.result_min, self.bounds.result_max)
    }

    /// A producer of additions with operands and sums in the given range.
    pub fn new(result_min: T, result_max: T) -> (made: Result<Self, Error>)
        ensures
            match made {
                Ok(p) => {
                    &&& addition_fault(result_min.value(), result_max.value(), T::lowest()) is None
                    &&& p.result_min() == result_min.value()
                    &&& p.result_max() == result_max.value()
                },
                Err(e) => addition_fault(result_min.value(), result_max.value(), T::lowest())
                    == Some(e),
            },
    {
        let min = result_min.widen();
        let max = result_max.widen();
        proof {
            T::limits();
            result_min.within_limits();
            result_max.within_limits();
        }
        if min > max {
            Err(Error::InvertedRange)
        } else if min + min > max {
            Err(Error::NoSolution)
        } else if T::narrow(min + min).is_none() {
            Err(Error::Unrepresentable)
        } else {
            Ok(Add { bounds: Bounds { result_min, result_max }, rng: rand::thread_rng() })
        }
    }

    /// The task `left + right`, if the pair is one for this producer.
    pub fn pose(&self, left: T, right: T) -> (posed: Option<Task<T>>)
        ensures
            posed is Some <==> addition_accepts(
                self.result_min(),
                self.result_max(),
                left.value(),
                right.value(),
            ),
            posed matches Some(task) ==> task@ == task_of(
                left.value(),
                '+',
                right.value(),
                left.value() + right.value(),
            ),
    {
        proof {
            use_type_invariant(&self.bounds);
            T::limits();
            left.within_limits();
            right.within_limits();
            self.bounds.result_min.within_limits();
            self.bounds.result_max.within_limits();
        }
        let min = self.bounds.result_min.widen();
        let max = self.bounds.result_max.widen();
        let l = left.widen();
        let r = right.widen();
        if l < min || l > max || r < min || r > max || l + r > max {
            return None;
        }
        let sum = T::narrow(l + r).unwrap();
        proof {
            reveal_strlit(" + ");
        }
        Some(compose(left, " + ", right, sum))
    }

    /// The task of the least pair of operands, which is one for every producer.
    pub fn least(&self) -> (task: Task<T>)
        ensures
            addition_accepts(
                self.result_min(),
                self.result_max(),
                self.result_min(),
                self.result_min(),
            ),
            task@ == task_of(
                self.result_min(),
                '+',
                self.result_min(),
                self.result_min() + self.result_min(),
            ),
    {
        proof {
            use_type_invariant(&self.bounds);
        }
        self.pose(self.bounds.result_min, self.bounds.result_min).unwrap()
    }
}

impl<T: Number> TaskProducer<T> for Add<T> {
    open spec fn yields(&self, task: TaskView) -> bool {
        is_addition(self.result_min(), self.result_max(), task)
    }

    /// Draws both operands from `bounds` until their sum stays within the range. After
    /// `MAX_ATTEMPTS` pairs in vain, the task is that of the least pair.
    fn next(&mut self) -> (task: Task<T>)
        ensures
            final(self).result_min() == old(self).result_min(),
            final(self).result_max() == old(self).result_max(),
    {
        let mut attempts: u32 = 0;
        while attempts < MAX_ATTEMPTS
            invariant
                self.bounds == old(self).bounds,
            decreases MAX_ATTEMPTS - attempts,
        {
            proof {
                use_type_invariant(&self.bounds);
            }
            let left = sample(&mut self.rng, self.bounds.result_min, self.bounds.result_max);
            let right = sample(&mut self.rng, self.bounds.result_min, self.bounds.result_max);
            if let Some(task) = self.pose(left, right) {
                assert(addition_accepts(
                    self.result_min(),
                    self.result_max(),
                    left.value(),
                    right.value(),
                ));
                return task;
            }
            attempts += 1;
        }
        self.least()
    }
}

} // verus!
