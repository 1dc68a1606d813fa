use unit_test_bug::FlipError;
use unit_test_bug::Outcome;
use unit_test_bug::StateCell;
use unit_test_bug::UnitTestBug;

#[test]
fn default_works() {
    let unit_test_bug = UnitTestBug::default();
    assert_eq!(unit_test_bug.get(), false);
}

#[test]
fn it_works() {
    let mut unit_test_bug = UnitTestBug::new(false);
    assert_eq!(unit_test_bug.get(), false);
    assert_eq!(unit_test_bug.flip_with_error(), Err(FlipError::FlipError));
    assert_eq!(unit_test_bug.get(), false);
}

#[test]
fn flip_starting_true_keeps_true() {
    let mut unit = UnitTestBug::new(true);
    assert_eq!(unit.flip_with_error(), Err(FlipError::FlipError));
    assert_eq!(unit.get(), true);
}

#[test]
fn failed_flip_never_shows_the_candidate() {
    let mut unit = UnitTestBug::new(false);
    let _ = unit.flip_with_error();
    assert_ne!(unit.get(), true);
}

#[test]
fn two_failed_flips_leave_value_unchanged() {
    let mut unit = UnitTestBug::new(false);
    assert_eq!(unit.flip_with_error(), Err(FlipError::FlipError));
    assert_eq!(unit.flip_with_error(), Err(FlipError::FlipError));
    assert_eq!(unit.get(), false);

    let mut unit = UnitTestBug::new(true);
    assert_eq!(unit.flip_with_error(), Err(FlipError::FlipError));
    assert_eq!(unit.flip_with_error(), Err(FlipError::FlipError));
    assert_eq!(unit.get(), true);
}

#[test]
fn read_is_idempotent() {
    let unit = UnitTestBug::new(true);
    assert_eq!(unit.get(), unit.get());

    let unit = UnitTestBug::new(false);
    assert_eq!(unit.get(), unit.get());
}

#[test]
fn try_mutate_commits_on_success() {
    let mut unit = UnitTestBug::new(false);
    let returned = unit.try_mutate(|value| (!value, Outcome::Success(!value)));
    assert_eq!(returned, Outcome::Success(true));
    assert_eq!(unit.get(), true);
}

#[test]
fn try_mutate_rolls_back_on_failure() {
    let mut unit = UnitTestBug::new(true);
    let returned = unit.try_mutate(|value| (!value, Outcome::Failure(FlipError::FlipError)));
    assert_eq!(returned, Outcome::Failure(FlipError::FlipError));
    assert_eq!(unit.get(), true);
}

#[test]
fn success_reports_the_committed_candidate() {
    let mut unit = UnitTestBug::new(false);
    let returned = unit.try_mutate(|_value| (true, Outcome::Success(false)));
    assert_eq!(returned, Outcome::Success(true));
    assert_eq!(unit.get(), true);
}

#[test]
fn state_cell_holds_its_initial_value() {
    assert_eq!(StateCell::new(true).read(), true);
    assert_eq!(StateCell::new(false).read(), false);
}
