//! Arithmetic drills: producers of randomly drawn, self-checking tasks.
//!
//! A producer yields one task after another: a question in text and the number that
//! answers it. `Add`, `Sub` and `Mul` draw their operands from a range given at
//! construction; `Mixed` hands each call to one of its members, drawn at random.

pub mod addition;
pub mod decimal;
pub mod mixed;
pub mod multiplication;
pub mod number;
pub mod random;
pub mod session;
pub mod subtraction;
pub mod task;

pub use crate::addition::Add;
pub use crate::mixed::Mixed;
pub use crate::multiplication::Mul;
pub use crate::number::Number;
pub use crate::subtraction::Sub;
pub use crate::task::{Error, Task, TaskProducer};
