use sinogi::windows::{navigation_script, problem_path, OpenOutcome, WindowRegistry};

#[test]
fn problem_path_interpolates_identifier_verbatim() {
    assert_eq!(problem_path("12345"), "/problems/12345");
    assert_eq!(problem_path(""), "/problems/");
    assert_eq!(problem_path("a/b"), "/problems/a/b");
}

#[test]
fn navigation_script_replaces_location() {
    assert_eq!(
        navigation_script("/problems/7"),
        "window.location.replace('/problems/7');"
    );
}

#[test]
fn first_open_creates_the_singleton_window() {
    let mut reg = WindowRegistry::new();
    assert!(!reg.has_window("problem"));
    let outcome = reg.open_problem_view("12345", "Problem 12345");
    match outcome {
        OpenOutcome::Created { url, title } => {
            assert_eq!(url, "/problems/12345");
            assert_eq!(title, "Problem 12345");
        }
        _ => panic!("expected a creation order"),
    }
    assert_eq!(reg.windows.len(), 1);
    assert_eq!(reg.windows[0].label, "problem");
    assert_eq!(reg.windows[0].location, "/problems/12345");
    assert_eq!(reg.windows[0].title, "Problem 12345");
    assert!(reg.windows[0].always_on_top);
    assert!(!reg.windows[0].has_menu);
    assert!(reg.has_window("problem"));
}

#[test]
fn second_open_retargets_instead_of_creating() {
    let mut reg = WindowRegistry::new();
    reg.open_problem_view("12345", "Problem 12345");
    let outcome = reg.open_problem_view("67890", "Problem 67890");
    match outcome {
        OpenOutcome::Retargeted { script, title } => {
            assert_eq!(script, "window.location.replace('/problems/67890');");
            assert_eq!(title, "Problem 67890");
        }
        _ => panic!("expected a retarget, not a second window"),
    }
    assert_eq!(reg.windows.len(), 1);
    assert_eq!(reg.windows[0].label, "problem");
    assert_eq!(reg.windows[0].location, "/problems/67890");
    assert_eq!(reg.windows[0].title, "Problem 67890");
    assert!(reg.windows[0].always_on_top);
    assert!(!reg.windows[0].has_menu);
}

#[test]
fn repeated_identical_opens_leave_observable_state_unchanged() {
    let mut reg = WindowRegistry::new();
    reg.open_problem_view("42", "Problem 42");
    let location_before = reg.windows[0].location.clone();
    let title_before = reg.windows[0].title.clone();
    reg.open_problem_view("42", "Problem 42");
    assert_eq!(reg.windows.len(), 1);
    assert_eq!(reg.windows[0].label, "problem");
    assert_eq!(reg.windows[0].location, location_before);
    assert_eq!(reg.windows[0].title, title_before);
    assert!(reg.windows[0].always_on_top);
    assert!(!reg.windows[0].has_menu);
}

#[test]
fn closing_makes_the_next_open_create_again() {
    let mut reg = WindowRegistry::new();
    reg.open_problem_view("1", "one");
    assert!(reg.close_window("problem"));
    assert!(!reg.has_window("problem"));
    assert_eq!(reg.windows.len(), 0);
    let outcome = reg.open_problem_view("2", "two");
    assert!(matches!(outcome, OpenOutcome::Created { .. }));
    assert_eq!(reg.windows.len(), 1);
    assert_eq!(reg.windows[0].location, "/problems/2");
}

#[test]
fn closing_an_absent_window_reports_false() {
    let mut reg = WindowRegistry::new();
    assert!(!reg.close_window("problem"));
    assert_eq!(reg.windows.len(), 0);
}
