//! Multiplication tasks.

use crate::number::{sample, Number};
use crate::task::{
    compose, lemma_question_names_operands, question, task_of, Error, Task, TaskProducer,
    TaskView,
};
use rand::rngs::ThreadRng;
use vstd::prelude::*;

verus! {

/// The product of two integers.
pub open spec fn product(left: int, right: int) -> int {
    left * right
}

/// Whether the product of any two factors between `min` and `max` lies between `lowest`
/// and `highest`.
pub open spec fn products_fit(min: int, max: int, lowest: int, highest: int) -> bool {
    forall|left: int, right: int|
        min <= left <= max && min <= right <= max ==> lowest <= #[trigger] product(left, right)
            <= highest
}

/// Why no producer of multiplications can be built for factors between `min` and `max`,
/// if so, in a number type that holds the integers from `lowest` to `highest`.
pub open spec fn multiplication_fault(min: int, max: int, lowest: int, highest: int) -> Option<
    Error,
> {
    if min > max {
        Some(Error::InvertedRange)
    } else if !products_fit(min, max, lowest, highest) {
        Some(Error::Unrepresentable)
    } else {
        None
    }
}

/// Whether `left * right` is a multiplication for factors between `min` and `max`: both
/// factors lie in the range, whatever their product.
pub open spec fn multiplication_accepts(min: int, max: int, left: int, right: int) -> bool {
    &&& min <= left <= max
    &&& min <= right <= max
}

/// Whether `task` is a multiplication for factors between `min` and `max`.
pub open spec fn is_multiplication(min: int, max: int, task: TaskView) -> bool {
    exists|left: int, right: int|
        #[trigger] multiplication_accepts(min, max, left, right) && task == task_of(
            left,
            '*',
            right,
            left * right,
        )
}

/// Between the products of the bounds lies the product of any two factors from the
/// range: it is at most the greater square, and at least the lesser of zero and the
/// product of the two bounds.
pub proof fn lemma_product_between_corners(min: int, max: int, left: int, right: int)
    by (nonlinear_arith)
    requires
        min <= left <= max,
        min <= right <= max,
    ensures
        left * right <= min * min || left * right <= max * max,
        left * right >= min * max || left * right >= 0,
{
}

/// A range of factors has all its products in a number type exactly when the squares
/// of both bounds and the product of the bounds are in it.
pub proof fn lemma_products_fit_at_corners(min: int, max: int, lowest: int, highest: int)
    requires
        min <= max,
        lowest <= 0 <= highest,
    ensures
        products_fit(min, max, lowest, highest) <==> {
            &&& min * min <= highest
            &&& max * max <= highest
            &&& lowest <= min * max
        },
{
    if min * min <= highest && max * max <= highest && lowest <= min * max {
        assert forall|left: int, right: int|
            min <= left <= max && min <= right <= max implies lowest <= #[trigger] product(
            left,
            right,
        ) <= highest by {
            lemma_product_between_corners(min, max, left, right);
        }
    }
    if products_fit(min, max, lowest, highest) {
        assert(lowest <= product(min, min) <= highest);
        assert(lowest <= product(max, max) <= highest);
        assert(lowest <= product(min, max) <= highest);
    }
}

/// Every multiplication for factors between `min` and `max` asks for the product of two
/// numbers from the range and is answered by that product: whatever factors and sign its
/// question names, they are these.
pub proof fn lemma_multiplication_in_range(
    min: int,
    max: int,
    task: TaskView,
    left: int,
    sign: char,
    right: int,
)
    requires
        is_multiplication(min, max, task),
        task.text == question(left, sign, right),
    ensures
        sign == '*',
        min <= left <= max,
        min <= right <= max,
        task.answer == left * right,
{
    let (l, r) = choose|l: int, r: int|
        #[trigger] multiplication_accepts(min, max, l, r) && task == task_of(l, '*', r, l * r);
    lemma_question_names_operands(left, sign, right, l, '*', r);
}

/// Any two factors from the range make a multiplication, whatever their product: the
/// product is under no bound of its own.
pub proof fn lemma_multiplication_takes_any_product(min: int, max: int, left: int, right: int)
    requires
        min <= left <= max,
        min <= right <= max,
    ensures
        is_multiplication(min, max, task_of(left, '*', right, left * right)),
{
    assert(multiplication_accepts(min, max, left, right));
}

/// A range whose lower bound lies above its upper bound is refused as inverted, and no
/// other range is.
pub proof fn lemma_multiplication_refuses_inverted(min: int, max: int, lowest: int, highest: int)
    ensures
        multiplication_fault(min, max, lowest, highest) == Some(Error::InvertedRange) <==> min
            > max,
{
}

/// A producer of multiplications: both factors lie between `factor_min` and
/// `factor_max`, and any product of theirs is taken.
///
/// There is a producer for every range that is not inverted and whose products all fit
/// in the number type: see `multiplication_fault`.
pub struct Mul<T: Number> {
    bounds: Bounds<T>,
    rng: ThreadRng,
}

/// The bounds of a producer of multiplications. No value of this type holds bounds that
/// `new` refuses.
struct Bounds<T: Number> {
    factor_min: T,
    factor_max: T,
}

impl<T: Number> Bounds<T> {
    #[verifier::type_invariant]
    spec fn accepted(self) -> bool {
        multiplication_fault(
            self.factor_min.value(),
            self.factor_max.value(),
            T::lowest(),
            T::highest(),
        ) is None
    }
}

/// Whether `left * right` fits in `T`.
fn product_fits<T: Number>(left: i128, right: i128) -> (fits: bool)
    ensures
        fits <==> T::lowest() <= left * right <= T::highest(),
{
    proof {
        T::limits();
    }
    match left.checked_mul(right) {
        Some(p) => T::narrow(p).is_some(),
        None => false,
    }
}

impl<T: Number> Mul<T> {
    /// The least factor.
    pub closed spec fn factor_min(&self) -> int {
        self.bounds.factor_min.value()
    }

    /// The greatest factor.
    pub closed spec fn factor_max(&self) -> int {
        self.bounds.factor_max.value()
    }

    /// The bounds that the producer was built with, which are bounds that `new` accepts.
    pub fn bounds(&self) -> (bounds: (T, T))
        ensures
            bounds.0.value() == self.factor_min(),
            bounds.1.value() == self.factor_max(),
            multiplication_fault(self.factor_min(), self.factor_max(), T::lowest(), T::highest()) is None,
    {
        proof {
            use_type_invariant(&self.bounds);
        }
        (self.bounds.factor_min, self.bounds.factor_max)
    }

    /// A producer of multiplications with factors in the given range.
    pub fn new(factor_min: T, factor_max: T) -> (made: Result<Self, Error>)
        ensures
            match made {
                Ok(p) => {
                    &&& multiplication_fault(
                        factor_min.value(),
                        factor_max.value(),
                        T::lowest(),
                        T::highest(),
                    ) is None
                    &&& p.factor_min() == factor_min.value()
                    &&& p.factor_max() == factor_max.value()
                },
                Err(e) => multiplication_fault(
                    factor_min.value(),
                    factor_max.value(),
                    T::lowest(),
                    T::highest(),
                ) == Some(e),
            },
    {
        let min = factor_min.widen();
        let max = factor_max.widen();
        if min > max {
            return Err(Error::InvertedRange);
        }
        proof {
            T::limits();
            lemma_products_fit_at_corners(min as int, max as int, T::lowest(), T::highest());
            lemma_product_between_corners(min as int, max as int, min as int, max as int);
            assert(min * min >= 0 && max * max >= 0) by (nonlinear_arith);
        }
        if product_fits::<T>(min, min) && product_fits::<T>(max, max) && product_fits::<T>(
            min,
            max,
        ) {
            Ok(Mul { bounds: Bounds { factor_min, factor_max }, rng: rand::thread_rng() })
        } else {
            Err(Error::Unrepresentable)
        }
    }

    /// The task `left * right`, if the pair is one for this producer.
    pub fn pose(&self, left: T, right: T) -> (posed: Option<Task<T>>)
        ensures
            posed is Some <==> multiplication_accepts(
                self.factor_min(),
                self.factor_max(),
                left.value(),
                right.value(),
            ),
            posed matches Some(task) ==> task@ == task_of(
                left.value(),
                '*',
                right.value(),
                left.value() * right.value(),
            ),
    {
        proof {
            use_type_invariant(&self.bounds);
            T::limits();
        }
        let min = self.bounds.factor_min.widen();
        let max = self.bounds.factor_max.widen();
        let l = left.widen();
        let r = right.widen();
        if l < min || l > max || r < min || r > max {
            return None;
        }
        assert(T::lowest() <= product(l as int, r as int) <= T::highest());
        let wide = l.checked_mul(r).unwrap();
        let answer = T::narrow(wide).unwrap();
        proof {
            reveal_strlit(" * ");
        }
        Some(compose(left, " * ", right, answer))
    }
}

impl<T: Number> TaskProducer<T> for Mul<T> {
    open spec fn yields(&self, task: TaskView) -> bool {
        is_multiplication(self.factor_min(), self.factor_max(), task)
    }

    /// Draws both factors from `bounds` and takes their product as it comes.
    fn next(&mut self) -> (task: Task<T>)
        ensures
            final(self).factor_min() == old(self).factor_min(),
            final(self).factor_max() == old(self).factor_max(),
    {
        proof {
            use_type_invariant(&self.bounds);
        }
        let left = sample(&mut self.rng, self.bounds.factor_min, self.bounds.factor_max);
        let right = sample(&mut self.rng, self.bounds.factor_min, self.bounds.factor_max);
        let posed = self.pose(left, right);
        assert(multiplication_accepts(
            self.factor_min(),
            self.factor_max(),
            left.value(),
            right.value(),
        ));
        posed.unwrap()
    }
}

} // verus!
