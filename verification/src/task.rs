//! Tasks, and what it means to produce them.

use crate::decimal::{decimal, lemma_decimal_has_no_space, lemma_decimal_injective, push_decimal};
use crate::number::{to_text, Number};
use vstd::prelude::*;
use vstd::string::*;

verus! {

/// Why a producer cannot be built.
#[derive(Clone, Copy, Debug, PartialEq, Eq)]
pub enum Error {
    /// The lower bound lies above the upper bound.
    InvertedRange,
    /// A bound or a result that the range allows does not fit in the number type.
    Unrepresentable,
    /// No pair of operands from the range has a result within it.
    NoSolution,
    /// A mixture needs at least one producer.
    EmptyMixture,
    /// The greatest number of a drill must be greater than zero.
    NotPositive,
}

/// What a task comes to: the characters of its question and the integer that answers it.
pub struct TaskView {
    pub text: Seq<char>,
    pub answer: int,
}

/// The type yielded by a task producer.
pub struct Task<T: Number> {
    /// The question in text.
    pub text: String,
    /// The right answer.
    pub answer: T,
}

impl<T: Number> View for Task<T> {
    type V = TaskView;

    open spec fn view(&self) -> TaskView {
        TaskView { text: self.text@, answer: self.answer.value() }
    }
}

impl TaskView {
    /// Whether `answer` is right.
    pub open spec fn is_right(self, answer: int) -> bool {
        answer == self.answer
    }
}

impl<T: Number> Task<T> {
    /// Accepts an answer, which ends the task. Returns true if the answer was right.
    pub fn give_answer(self, answer: T) -> (right: bool)
        ensures
            right == self@.is_right(answer.value()),
    {
        answer.widen() == self.answer.widen()
    }
}

/// A task takes its own answer as right and no other number: neither the next greater
/// nor the next smaller one.
pub proof fn lemma_only_the_answer_is_right(task: TaskView, given: int)
    ensures
        task.is_right(given) <==> given == task.answer,
        task.is_right(task.answer),
        !task.is_right(task.answer + 1),
        !task.is_right(task.answer - 1),
{
}

/// The question `left sign right`, the operands in decimal notation.
pub open spec fn question(left: int, sign: char, right: int) -> Seq<char> {
    decimal(left) + seq![' ', sign, ' '] + decimal(right)
}

/// A question names its operands and its sign: two questions that read the same ask for
/// the same operation on the same numbers.
pub proof fn lemma_question_names_operands(
    left: int,
    sign: char,
    right: int,
    other_left: int,
    other_sign: char,
    other_right: int,
)
    requires
        question(left, sign, right) == question(other_left, other_sign, other_right),
    ensures
        left == other_left,
        sign == other_sign,
        right == other_right,
{
    let text = question(left, sign, right);
    let other = question(other_left, other_sign, other_right);
    let l = decimal(left);
    let m = decimal(other_left);
    let at: int = l.len() as int;
    let other_at: int = m.len() as int;
    lemma_decimal_has_no_space(left);
    lemma_decimal_has_no_space(other_left);
    assert(text[at] == ' ');
    assert(other[other_at] == ' ');
    if at < other_at {
        assert(other[at] == m[at]);
    }
    if other_at < at {
        assert(text[other_at] == l[other_at]);
    }
    assert(at == other_at);
    assert forall|i: int| 0 <= i < at implies l[i] == m[i] by {
        assert(text[i] == l[i]);
        assert(other[i] == m[i]);
    }
    assert(l =~= m);
    lemma_decimal_injective(left, other_left);
    assert(text[at + 1] == sign);
    assert(other[at + 1] == other_sign);
    assert(decimal(right) =~= text.subrange(at + 3, text.len() as int));
    assert(decimal(other_right) =~= other.subrange(at + 3, other.len() as int));
    lemma_decimal_injective(right, other_right);
}

/// The task that asks for `left sign right` and is answered by `answer`.
pub open spec fn task_of(left: int, sign: char, right: int, answer: int) -> TaskView {
    TaskView { text: question(left, sign, right), answer }
}

/// Builds the task that asks for `left`, the sign and `right`, and is answered by
/// `answer`. `spaced` is the sign between two spaces.
pub(crate) fn compose<T: Number>(left: T, spaced: &str, right: T, answer: T) -> (task: Task<T>)
    requires
        spaced@.len() == 3,
        spaced@[0] == ' ',
        spaced@[2] == ' ',
    ensures
        task@ == task_of(left.value(), spaced@[1], right.value(), answer.value()),
{
    let mut text = to_text(left);
    text.append(spaced);
    push_decimal(&mut text, right.widen());
    assert(text@ =~= question(left.value(), spaced@[1], right.value()));
    Task { text, answer }
}

/// How many pairs of operands a producer draws at most for one task. When every one of
/// them was rejected, it stops drawing and poses a task that its range always allows.
pub const MAX_ATTEMPTS: u32 = 1_000_000;

/// A task producer is something which can yield an infinite number of tasks.
pub trait TaskProducer<T: Number> {
    /// Whether `task` is one of the tasks that this producer can yield.
    spec fn yields(&self, task: TaskView) -> bool;

    /// Yield a new task. The producer can yield the same tasks afterwards as before.
    fn next(&mut self) -> (task: Task<T>)
        ensures
            old(self).yields(task@),
            forall|t: TaskView| final(self).yields(t) == old(self).yields(t),
    ;
}

} // verus!
