//! The decisions of a drill session: what each menu entry leads to, which producer a
//! set of answers asks for, how a run is scored and how its time reads.
//!
//! Nothing here reads or prints. The program around it shows the texts, hands in what
//! the user entered and does what comes back.

use crate::addition::{addition_fault, is_addition, Add};
use crate::decimal::{decimal, push_decimal};
use crate::multiplication::{is_multiplication, multiplication_fault, Mul};
use crate::subtraction::{is_subtraction, subtraction_fault, Sub};
use crate::task::{Error, TaskProducer, TaskView};
use vstd::prelude::*;
use vstd::string::*;

verus! {

/// How many tasks a run has unless the user says otherwise.
pub const DEFAULT_NUMBER_OF_TASKS: u32 = 10;

/// The lines of the first `n` entries of a menu, each with its number, counted from one.
pub open spec fn menu_entries(choices: Seq<&str>, n: int) -> Seq<char>
    decreases n,
{
    if n <= 0 {
        Seq::empty()
    } else {
        menu_entries(choices, n - 1) + decimal(n) + seq![')', ' '] + choices[n - 1]@ + seq!['\n']
    }
}

/// What a menu shows: the title, an empty line, the numbered entries, an empty line.
pub open spec fn menu_text_of(title: Seq<char>, choices: Seq<&str>) -> Seq<char> {
    title + seq!['\n', '\n'] + menu_entries(choices, choices.len() as int) + seq!['\n']
}

/// The text of a menu with the given title and entries.
pub fn menu_text(title: &str, choices: &[&str]) -> (text: String)
    ensures
        text@ == menu_text_of(title@, choices@),
{
    proof {
        reveal_strlit("\n\n");
        reveal_strlit(") ");
        reveal_strlit("\n");
    }
    let mut text = String::from_str(title);
    text.append("\n\n");
    assert(text@ =~= title@ + seq!['\n', '\n'] + menu_entries(choices@, 0));
    let mut i: usize = 0;
    while i < choices.len()
        invariant
            i <= choices.len(),
            text@ == title@ + seq!['\n', '\n'] + menu_entries(choices@, i as int),
            ") "@ == seq![')', ' '],
            "\n"@ == seq!['\n'],
        decreases choices.len() - i,
    {
        let ghost before = text@;
        push_decimal(&mut text, i as i128 + 1);
        text.append(") ");
        text.append(choices[i]);
        text.append("\n");
        i += 1;
        assert(text@ =~= title@ + seq!['\n', '\n'] + menu_entries(choices@, i as int));
    }
    text.append("\n");
    text
}

/// The entry that the number `entered` selects in a menu of `choices` entries, counted
/// from one. Any other number selects nothing.
pub fn menu(entered: usize, choices: usize) -> (selected: Option<usize>)
    ensures
        selected == if 0 < entered <= choices {
            Some(entered)
        } else {
            None::<usize>
        },
{
    if entered > 0 && entered <= choices {
        Some(entered)
    } else {
        None
    }
}

/// What a session does after an entry of the main menu was chosen.
#[derive(Clone, Copy, Debug, PartialEq, Eq)]
pub enum MainMenu {
    /// Set up a new run of tasks.
    NewTask,
    /// Leave the program.
    Quit,
}

/// The step behind entry `selected` of the main menu, whose entries are counted from
/// one: a new task first, then leaving. There is no step behind any other number.
pub fn main_menu(selected: usize) -> (step: Option<MainMenu>)
    ensures
        step == if selected == 1 {
            Some(MainMenu::NewTask)
        } else if selected == 2 {
            Some(MainMenu::Quit)
        } else {
            None
        },
{
    if selected == 1 {
        Some(MainMenu::NewTask)
    } else if selected == 2 {
        Some(MainMenu::Quit)
    } else {
        None
    }
}

/// What the setup of a run does after an entry of its menu was chosen.
#[derive(Clone, Copy, Debug, PartialEq, Eq)]
pub enum Setup {
    /// Ask for one more mathematical operation.
    AddProducer,
    /// Mix the operations selected so far and go on to the run.
    Run,
    /// Say that at least one operation is needed, and show the menu again.
    NothingSelected,
    /// Give the setup up and return to the main menu.
    Back,
}

/// The title of the setup menu when `count` operations have been selected.
pub fn setup_title(count: usize) -> (title: String)
    ensures
        title@ == "Setup tasks.\nYou have selected "@ + decimal(count as int)
            + " mathematical operations."@,
{
    let mut title = String::from_str("Setup tasks.\nYou have selected ");
    push_decimal(&mut title, count as i128);
    title.append(" mathematical operations.");
    title
}

/// The step behind entry `selected` of the setup menu when `count` operations have been
/// selected so far: one more operation first, then the run, which needs an operation,
/// then the way back.
pub fn setup_task(selected: usize, count: usize) -> (step: Option<Setup>)
    ensures
        step == if selected == 1 {
            Some(Setup::AddProducer)
        } else if selected == 2 && count > 0 {
            Some(Setup::Run)
        } else if selected == 2 {
            Some(Setup::NothingSelected)
        } else if selected == 3 {
            Some(Setup::Back)
        } else {
            None
        },
{
    if selected == 1 {
        Some(Setup::AddProducer)
    } else if selected == 2 {
        if count > 0 {
            Some(Setup::Run)
        } else {
            Some(Setup::NothingSelected)
        }
    } else if selected == 3 {
        Some(Setup::Back)
    } else {
        None
    }
}

/// A mathematical operation to drill.
#[derive(Clone, Copy, Debug, PartialEq, Eq)]
pub enum Operation {
    Addition,
    Subtraction,
    Multiplication,
}

/// What was chosen in the menu of operations.
#[derive(Clone, Copy, Debug, PartialEq, Eq)]
pub enum OperationChoice {
    /// One of the operations.
    Chosen(Operation),
    /// No operation after all.
    Cancel,
}

/// The choice behind entry `selected` of the menu of operations: addition, subtraction,
/// multiplication, and last the entry that cancels.
pub fn choose_operation(selected: usize) -> (choice: Option<OperationChoice>)
    ensures
        choice == if selected == 1 {
            Some(OperationChoice::Chosen(Operation::Addition))
        } else if selected == 2 {
            Some(OperationChoice::Chosen(Operation::Subtraction))
        } else if selected == 3 {
            Some(OperationChoice::Chosen(Operation::Multiplication))
        } else if selected == 4 {
            Some(OperationChoice::Cancel)
        } else {
            None
        },
{
    if selected == 1 {
        Some(OperationChoice::Chosen(Operation::Addition))
    } else if selected == 2 {
        Some(OperationChoice::Chosen(Operation::Subtraction))
    } else if selected == 3 {
        Some(OperationChoice::Chosen(Operation::Multiplication))
    } else if selected == 4 {
        Some(OperationChoice::Cancel)
    } else {
        None
    }
}

/// The least number of a drill whose greatest number is `maximum`: its opposite where
/// negative numbers are wanted, else zero.
pub open spec fn least_number(negative: bool, maximum: int) -> int {
    if negative {
        -maximum
    } else {
        0
    }
}

/// Why there is no producer for `operation` with numbers up to `maximum`, if so.
pub open spec fn producer_fault(operation: Operation, negative: bool, maximum: int) -> Option<
    Error,
> {
    if maximum <= 0 {
        Some(Error::NotPositive)
    } else {
        match operation {
            Operation::Addition => addition_fault(
                least_number(negative, maximum),
                maximum,
                i64::MIN as int,
            ),
            Operation::Subtraction => subtraction_fault(
                least_number(negative, maximum),
                maximum,
                i64::MAX as int,
            ),
            Operation::Multiplication => multiplication_fault(
                least_number(negative, maximum),
                maximum,
                i64::MIN as int,
                i64::MAX as int,
            ),
        }
    }
}

/// Whether `task` is one of `operation` for the range from `min` to `max`.
pub open spec fn is_task_of(operation: Operation, min: int, max: int, task: TaskView) -> bool {
    match operation {
        Operation::Addition => is_addition(min, max, task),
        Operation::Subtraction => is_subtraction(min, max, task),
        Operation::Multiplication => is_multiplication(min, max, task),
    }
}

/// The producer for `operation` with numbers up to `maximum`, which must be greater
/// than zero, and down to zero, or to the opposite of `maximum` where negative numbers
/// are wanted.
pub fn add_task_producer(operation: Operation, negative: bool, maximum: i64) -> (made: Result<
    Box<dyn TaskProducer<i64>>,
    Error,
>)
    ensures
        match made {
            Ok(producer) => {
                &&& producer_fault(operation, negative, maximum as int) is None
                &&& forall|task: TaskView|
                    producer.yields(task) == is_task_of(
                        operation,
                        least_number(negative, maximum as int),
                        maximum as int,
                        task,
                    )
            },
            Err(e) => producer_fault(operation, negative, maximum as int) == Some(e),
        },
{
    if maximum <= 0 {
        return Err(Error::NotPositive);
    }
    let minimum: i64 = if negative {
        -maximum
    } else {
        0
    };
    match operation {
        Operation::Addition => match Add::new(minimum, maximum) {
            Ok(producer) => Ok(Box::new(producer)),
            Err(e) => Err(e),
        },
        Operation::Subtraction => match Sub::new(minimum, maximum) {
            Ok(producer) => Ok(Box::new(producer)),
            Err(e) => Err(e),
        },
        Operation::Multiplication => match Mul::new(minimum, maximum) {
            Ok(producer) => Ok(Box::new(producer)),
            Err(e) => Err(e),
        },
    }
}

/// What is said to an answer.
pub fn verdict(right: bool) -> (said: &'static str)
    ensures
        said@ == if right {
            "Right!"@
        } else {
            "Wrong"@
        },
{
    if right {
        "Right!"
    } else {
        "Wrong"
    }
}

/// The score of a run of tasks: how many there are, how many were answered, and how
/// many of those rightly.
pub struct Run {
    number_of_tasks: u32,
    answered: u32,
    right: u32,
}

impl Run {
    #[verifier::type_invariant]
    spec fn counted(self) -> bool {
        self.right <= self.answered <= self.number_of_tasks
    }

    /// The number of tasks of the run.
    pub closed spec fn number_of_tasks(&self) -> nat {
        self.number_of_tasks as nat
    }

    /// The number of tasks answered so far.
    pub closed spec fn answered(&self) -> nat {
        self.answered as nat
    }

    /// The number of tasks answered rightly so far.
    pub closed spec fn right(&self) -> nat {
        self.right as nat
    }

    /// A run of `number_of_tasks` tasks, none of them answered yet.
    pub fn new(number_of_tasks: u32) -> (run: Run)
        ensures
            run.number_of_tasks() == number_of_tasks,
            run.answered() == 0,
            run.right() == 0,
    {
        Run { number_of_tasks, answered: 0, right: 0 }
    }

    /// Whether every task of the run has been answered.
    pub fn is_over(&self) -> (over: bool)
        ensures
            over == (self.answered() == self.number_of_tasks()),
            self.right() <= self.answered() <= self.number_of_tasks(),
    {
        proof {
            use_type_invariant(self);
        }
        self.answered == self.number_of_tasks
    }

    /// Counts one more answer, unless the run is over.
    pub fn record(&mut self, right: bool)
        ensures
            final(self).number_of_tasks() == old(self).number_of_tasks(),
            final(self).answered() == if old(self).answered() < old(self).number_of_tasks() {
                old(self).answered() + 1
            } else {
                old(self).answered()
            },
            final(self).right() == if right && old(self).answered() < old(
                self,
            ).number_of_tasks() {
                old(self).right() + 1
            } else {
                old(self).right()
            },
    {
        proof {
            use_type_invariant(&*self);
        }
        if self.answered < self.number_of_tasks {
            let answered = self.answered + 1;
            let counted = if right {
                self.right + 1
            } else {
                self.right
            };
            *self = Run { number_of_tasks: self.number_of_tasks, answered, right: counted };
        }
    }

    /// The score in words.
    pub fn report(&self) -> (text: String)
        ensures
            text@ == "You got "@ + decimal(self.right() as int) + seq!['/'] + decimal(
                self.number_of_tasks() as int,
            ),
    {
        proof {
            reveal_strlit("/");
        }
        let mut text = String::from_str("You got ");
        push_decimal(&mut text, self.right as i128);
        text.append("/");
        push_decimal(&mut text, self.number_of_tasks as i128);
        assert(text@ =~= "You got "@ + decimal(self.right() as int) + seq!['/'] + decimal(
            self.number_of_tasks() as int,
        ));
        text
    }
}

/// How a time of `all_secs` seconds and `subsec_millis` thousandths reads: the hours and
/// the minutes where there are any, then the seconds and, after a point, the hundredths.
pub open spec fn duration_text_of(all_secs: nat, subsec_millis: nat) -> Seq<char> {
    let hours = all_secs / 3600;
    let minutes = all_secs % 3600 / 60;
    let secs = all_secs % 60;
    let centis = subsec_millis / 10;
    (if hours != 0 {
        decimal(hours as int) + seq!['h']
    } else {
        Seq::empty()
    }) + (if minutes != 0 {
        decimal(minutes as int) + seq!['m']
    } else {
        Seq::empty()
    }) + decimal(secs as int) + seq!['.'] + decimal(centis as int) + seq!['s']
}

/// What is left of a time after its hours are its minutes and seconds, and what is left
/// after its minutes are its seconds.
proof fn lemma_clock(all_secs: int)
    requires
        0 <= all_secs,
    ensures
        all_secs - (all_secs / 3600) * 3600 == all_secs % 3600,
        all_secs % 3600 - (all_secs % 3600 / 60) * 60 == all_secs % 60,
{
    let rest = all_secs % 3600;
    assert(all_secs == (all_secs / 3600) * 3600 + rest);
    assert(rest == (rest / 60) * 60 + rest % 60);
    assert(all_secs == ((all_secs / 3600) * 60 + rest / 60) * 60 + rest % 60);
    assert(rest % 60 == all_secs % 60);
}

/// The text of a time of `all_secs` seconds and `subsec_millis` thousandths.
pub fn duration_text(all_secs: u64, subsec_millis: u32) -> (text: String)
    ensures
        text@ == duration_text_of(all_secs as nat, subsec_millis as nat),
{
    proof {
        reveal_strlit("h");
        reveal_strlit("m");
        reveal_strlit(".");
        reveal_strlit("s");
        lemma_clock(all_secs as int);
    }
    let hours: u64 = all_secs / 3600;
    let minutes: u64 = (all_secs - hours * 3600) / 60;
    let secs: u64 = all_secs - hours * 3600 - minutes * 60;
    let centis: u32 = subsec_millis / 10;
    assert(minutes == all_secs % 3600 / 60);
    assert(secs == all_secs % 60);
    let ghost hours_part = if hours != 0 {
        decimal(hours as int) + seq!['h']
    } else {
        Seq::empty()
    };
    let ghost minutes_part = if minutes != 0 {
        decimal(minutes as int) + seq!['m']
    } else {
        Seq::empty()
    };
    let mut text = String::new();
    if hours != 0 {
        push_decimal(&mut text, hours as i128);
        text.append("h");
    }
    assert(text@ =~= hours_part);
    if minutes != 0 {
        push_decimal(&mut text, minutes as i128);
        text.append("m");
    }
    assert(text@ =~= hours_part + minutes_part);
    push_decimal(&mut text, secs as i128);
    text.append(".");
    push_decimal(&mut text, centis as i128);
    text.append("s");
    assert(text@ =~= hours_part + minutes_part + decimal(secs as int) + seq!['.'] + decimal(
        centis as int,
    ) + seq!['s']);
    text
}

/// What follows a run.
#[derive(Clone, Copy, Debug, PartialEq, Eq)]
pub enum AfterRun {
    /// The same run once more.
    Again,
    /// The main menu.
    Back,
}

/// The step behind entry `selected` of the menu that follows a run: the run again
/// first, then the way back.
pub fn after_run(selected: usize) -> (step: Option<AfterRun>)
    ensures
        step == if selected == 1 {
            Some(AfterRun::Again)
        } else if selected == 2 {
            Some(AfterRun::Back)
        } else {
            None
        },
{
    if selected == 1 {
        Some(AfterRun::Again)
    } else if selected == 2 {
        Some(AfterRun::Back)
    } else {
        None
    }
}

} // verus!
