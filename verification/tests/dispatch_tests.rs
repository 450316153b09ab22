use characterai_client::dispatch::{dispatch, Dispatch, DispatchState};
use characterai_client::error::ClientError;
use std::cell::RefCell;

#[test]
fn on_done_runs_once_after_work() {
    let log: RefCell<Vec<String>> = RefCell::new(Vec::new());
    dispatch(
        || {
            log.borrow_mut().push("work".to_string());
            Ok("answer".to_string())
        },
        |outcome| {
            log.borrow_mut().push(format!("done {:?}", outcome));
        },
    );
    assert_eq!(log.into_inner(), vec!["work".to_string(), "done Ok(\"answer\")".to_string()]);
}

#[test]
fn a_failure_is_delivered_too() {
    let got: RefCell<Vec<Result<String, ClientError>>> = RefCell::new(Vec::new());
    dispatch(|| Err(ClientError::EmptyAnswer), |outcome| got.borrow_mut().push(outcome));
    assert_eq!(got.into_inner(), vec![Err(ClientError::EmptyAnswer)]);
}

#[test]
fn stages_follow_each_other() {
    let mut d = Dispatch::new();
    assert_eq!(d.state(), DispatchState::Idle);
    assert!(d.start());
    assert_eq!(d.state(), DispatchState::Running);
    assert!(!d.start());
    assert_eq!(d.state(), DispatchState::Running);
    let count = RefCell::new(0u32);
    assert!(d.deliver(Ok("a".to_string()), |_outcome| *count.borrow_mut() += 1));
    assert_eq!(d.state(), DispatchState::Delivered);
    assert!(!d.deliver(Ok("b".to_string()), |_outcome| *count.borrow_mut() += 1));
    assert!(!d.start());
    assert_eq!(d.state(), DispatchState::Delivered);
    assert_eq!(count.into_inner(), 1);
}

#[test]
fn nothing_is_delivered_before_the_start() {
    let mut d = Dispatch::new();
    let count = RefCell::new(0u32);
    assert!(!d.deliver(Ok("a".to_string()), |_outcome| *count.borrow_mut() += 1));
    assert_eq!(d.state(), DispatchState::Idle);
    assert_eq!(count.into_inner(), 0);
}
