use mental_calc::session::{
    add_task_producer, after_run, choose_operation, duration_text, main_menu, menu, menu_text,
    setup_task, setup_title, verdict, AfterRun, MainMenu, Operation, OperationChoice, Run, Setup,
    DEFAULT_NUMBER_OF_TASKS,
};
use mental_calc::Error;

#[test]
fn menu_text_numbers_its_entries_from_one() {
    assert_eq!(
        menu_text("Main menu", &["New task", "Quit"]),
        "Main menu\n\n1) New task\n2) Quit\n\n"
    );
    assert_eq!(menu_text("Nothing", &[]), "Nothing\n\n\n");
    let many = ["a"; 11];
    assert!(menu_text("", &many).ends_with("9) a\n10) a\n11) a\n\n"));
}

#[test]
fn menu_selects_an_entry_by_its_number() {
    assert_eq!(menu(1, 2), Some(1));
    assert_eq!(menu(2, 2), Some(2));
    assert_eq!(menu(0, 2), None);
    assert_eq!(menu(3, 2), None);
    assert_eq!(menu(1, 0), None);
    assert_eq!(menu(usize::MAX, usize::MAX), Some(usize::MAX));
}

#[test]
fn main_menu_starts_a_task_or_quits() {
    assert_eq!(main_menu(1), Some(MainMenu::NewTask));
    assert_eq!(main_menu(2), Some(MainMenu::Quit));
    assert_eq!(main_menu(0), None);
    assert_eq!(main_menu(3), None);
}

#[test]
fn setup_title_counts_the_operations() {
    assert_eq!(
        setup_title(0),
        "Setup tasks.\nYou have selected 0 mathematical operations."
    );
    assert_eq!(
        setup_title(12),
        "Setup tasks.\nYou have selected 12 mathematical operations."
    );
}

#[test]
fn setup_runs_only_with_an_operation() {
    assert_eq!(setup_task(1, 0), Some(Setup::AddProducer));
    assert_eq!(setup_task(1, 5), Some(Setup::AddProducer));
    assert_eq!(setup_task(2, 0), Some(Setup::NothingSelected));
    assert_eq!(setup_task(2, 1), Some(Setup::Run));
    assert_eq!(setup_task(3, 0), Some(Setup::Back));
    assert_eq!(setup_task(3, 2), Some(Setup::Back));
    assert_eq!(setup_task(0, 2), None);
    assert_eq!(setup_task(4, 2), None);
    assert_eq!(DEFAULT_NUMBER_OF_TASKS, 10);
}

#[test]
fn operations_are_chosen_by_number() {
    assert_eq!(choose_operation(1), Some(OperationChoice::Chosen(Operation::Addition)));
    assert_eq!(choose_operation(2), Some(OperationChoice::Chosen(Operation::Subtraction)));
    assert_eq!(choose_operation(3), Some(OperationChoice::Chosen(Operation::Multiplication)));
    assert_eq!(choose_operation(4), Some(OperationChoice::Cancel));
    assert_eq!(choose_operation(0), None);
    assert_eq!(choose_operation(5), None);
}

#[test]
fn producers_need_a_maximum_above_zero() {
    for operation in [Operation::Addition, Operation::Subtraction, Operation::Multiplication] {
        for negative in [false, true] {
            assert_eq!(add_task_producer(operation, negative, 0).err(), Some(Error::NotPositive));
            assert_eq!(add_task_producer(operation, negative, -3).err(), Some(Error::NotPositive));
            assert_eq!(
                add_task_producer(operation, negative, i64::MIN).err(),
                Some(Error::NotPositive)
            );
            assert!(add_task_producer(operation, negative, 1).is_ok());
        }
    }
}

#[test]
fn producers_range_from_zero_or_from_the_opposite() {
    let mut producer = add_task_producer(Operation::Addition, false, 1).ok().unwrap();
    for _ in 0..100 {
        let task = producer.next();
        assert!(["0 + 0", "0 + 1", "1 + 0"].contains(&task.text.as_str()));
    }
    let mut producer = add_task_producer(Operation::Subtraction, true, 1).ok().unwrap();
    let mut below = false;
    for _ in 0..200 {
        let task = producer.next();
        assert!((-1..=1).contains(&task.answer));
        below = below || task.answer < 0;
    }
    assert!(below);
    let mut producer = add_task_producer(Operation::Multiplication, true, 3).ok().unwrap();
    let mut below = false;
    for _ in 0..200 {
        let task = producer.next();
        assert!((-9..=9).contains(&task.answer));
        assert!(task.text.contains(" * "));
        below = below || task.answer < 0;
    }
    assert!(below);
}

#[test]
fn producers_are_refused_where_results_do_not_fit() {
    assert_eq!(
        add_task_producer(Operation::Addition, true, i64::MAX).err(),
        Some(Error::Unrepresentable)
    );
    assert!(add_task_producer(Operation::Addition, false, i64::MAX).is_ok());
    assert_eq!(
        add_task_producer(Operation::Subtraction, true, i64::MAX).err(),
        Some(Error::Unrepresentable)
    );
    assert!(add_task_producer(Operation::Subtraction, false, i64::MAX).is_ok());
    assert_eq!(
        add_task_producer(Operation::Multiplication, false, 3_037_000_500).err(),
        Some(Error::Unrepresentable)
    );
    assert!(add_task_producer(Operation::Multiplication, true, 3_037_000_499).is_ok());
}

#[test]
fn verdicts_are_said_in_words() {
    assert_eq!(verdict(true), "Right!");
    assert_eq!(verdict(false), "Wrong");
}

#[test]
fn a_run_counts_answers_up_to_its_number_of_tasks() {
    let mut run = Run::new(3);
    assert!(!run.is_over());
    assert_eq!(run.report(), "You got 0/3");
    run.record(true);
    run.record(false);
    assert!(!run.is_over());
    assert_eq!(run.report(), "You got 1/3");
    run.record(true);
    assert!(run.is_over());
    assert_eq!(run.report(), "You got 2/3");
    run.record(true);
    assert!(run.is_over());
    assert_eq!(run.report(), "You got 2/3");
}

#[test]
fn a_run_of_no_tasks_is_over_at_once() {
    let mut run = Run::new(0);
    assert!(run.is_over());
    run.record(true);
    assert_eq!(run.report(), "You got 0/0");
    let mut run = Run::new(u32::MAX);
    run.record(true);
    assert_eq!(run.report(), "You got 1/4294967295");
}

#[test]
fn durations_leave_out_empty_hours_and_minutes() {
    assert_eq!(duration_text(0, 0), "0.0s");
    assert_eq!(duration_text(59, 999), "59.99s");
    assert_eq!(duration_text(60, 0), "1m0.0s");
    assert_eq!(duration_text(61, 50), "1m1.5s");
    assert_eq!(duration_text(3600, 0), "1h0.0s");
    assert_eq!(duration_text(3725, 450), "1h2m5.45s");
    assert_eq!(duration_text(7322, 9), "2h2m2.0s");
    assert_eq!(duration_text(u64::MAX, u32::MAX), "5124095576030431h15.429496729s");
}

#[test]
fn after_a_run_comes_the_run_again_or_the_main_menu() {
    assert_eq!(after_run(1), Some(AfterRun::Again));
    assert_eq!(after_run(2), Some(AfterRun::Back));
    assert_eq!(after_run(0), None);
    assert_eq!(after_run(3), None);
}
