use std::cell::RefCell;
use std::rc::Rc;
use webview2_callback::completed::{AlreadyInvoked, CompletedCallback, Lifecycle};
use webview2_callback::event::EventCallback;
use webview2_callback::status::{Failure, StatusCode};
use webview2_callback::wide::WideString;

const E_FAIL: i32 = -2147467259;
const E_ACCESSDENIED: i32 = -2147024891;

fn failure(code: i32) -> Failure {
    Failure::new(code).unwrap()
}

fn wide(text: &str) -> WideString {
    WideString::from_units(text.encode_utf16().chain([0]).collect())
}

#[test]
fn one_shot_adapter_hands_the_text_to_its_closure() {
    let recorded: Rc<RefCell<Option<String>>> = Rc::new(RefCell::new(None));
    let slot = Rc::clone(&recorded);
    let mut adapter = CompletedCallback::<WideString, _>::create(move |text: String| {
        *slot.borrow_mut() = Some(text);
        Ok(())
    });
    assert_eq!(adapter.state(), Lifecycle::Uninvoked);
    assert_eq!(adapter.invoke(wide("done")), Ok(StatusCode(0)));
    assert_eq!(adapter.state(), Lifecycle::Invoked);
    assert_eq!(recorded.borrow().as_deref(), Some("done"));
}

#[test]
fn one_shot_adapter_reports_the_second_invocation() {
    let mut calls: u32 = 0;
    let mut adapter = CompletedCallback::<StatusCode, _>::create(|_status: Result<(), Failure>| {
        calls += 1;
        Ok(())
    });
    assert_eq!(adapter.invoke(StatusCode(0)), Ok(StatusCode(0)));
    assert_eq!(adapter.invoke(StatusCode(0)), Err(AlreadyInvoked));
    assert_eq!(adapter.invoke(StatusCode(E_FAIL)), Err(AlreadyInvoked));
    assert_eq!(adapter.state(), Lifecycle::Invoked);
    drop(adapter);
    assert_eq!(calls, 1);
}

#[test]
fn one_shot_adapter_is_used_up_by_a_failing_closure_too() {
    let mut adapter = CompletedCallback::<(), _>::create(|()| Err(failure(E_FAIL)));
    assert_eq!(adapter.invoke(()), Ok(StatusCode(E_FAIL)));
    assert_eq!(adapter.state(), Lifecycle::Invoked);
    assert_eq!(adapter.invoke(()), Err(AlreadyInvoked));
}

#[test]
fn one_shot_adapter_hands_the_failure_on() {
    let mut adapter =
        CompletedCallback::<(StatusCode, WideString), _>::create(|(status, _text): (Result<(), Failure>, String)| status);
    assert_eq!(adapter.invoke((StatusCode(E_ACCESSDENIED), WideString::null())), Ok(StatusCode(E_ACCESSDENIED)));
}

#[test]
fn one_shot_call_takes_converted_arguments() {
    let mut adapter = CompletedCallback::<WideString, _>::create(|text: String| {
        if text == "fine" {
            Ok(())
        } else {
            Err(failure(E_FAIL))
        }
    });
    assert_eq!(adapter.call(String::from("bad")), Ok(StatusCode(E_FAIL)));
    assert_eq!(adapter.call(String::from("fine")), Err(AlreadyInvoked));
}

#[test]
fn multi_shot_adapter_counts_and_fails_on_the_second_call() {
    let mut count: u32 = 0;
    let mut adapter = EventCallback::<(Option<Rc<u8>>, Option<Rc<u8>>), _>::create(
        |(_sender, _args): (Option<Rc<u8>>, Option<Rc<u8>>)| {
            count += 1;
            if count == 2 {
                Err(failure(E_FAIL))
            } else {
                Ok(())
            }
        },
    );
    let sender: Option<Rc<u8>> = Some(Rc::new(0));
    let args: Option<Rc<u8>> = None;
    let mut statuses: Vec<StatusCode> = Vec::new();
    statuses.push(adapter.invoke((&sender, &args)));
    statuses.push(adapter.invoke((&sender, &args)));
    statuses.push(adapter.invoke((&sender, &args)));
    drop(adapter);
    assert_eq!(statuses, vec![StatusCode(0), StatusCode(E_FAIL), StatusCode(0)]);
    assert_eq!(count, 3);
}

#[test]
fn multi_shot_adapter_answers_each_call_by_itself() {
    let mut adapter = EventCallback::<StatusCode, _>::create(|status: Result<(), Failure>| status);
    let raw: [i32; 8] = [0, E_FAIL, 1, E_ACCESSDENIED, 0, -1, i32::MAX, i32::MIN];
    let expected: [i32; 8] = [0, E_FAIL, 0, E_ACCESSDENIED, 0, -1, 0, i32::MIN];
    let mut statuses: Vec<i32> = Vec::new();
    for code in raw {
        statuses.push(adapter.invoke(StatusCode(code)).0);
    }
    assert_eq!(statuses, expected);
}

#[test]
fn multi_shot_adapter_alternates_with_its_closure() {
    let mut turn: u32 = 0;
    let mut adapter = EventCallback::<(), _>::create(|()| {
        turn += 1;
        if turn % 2 == 0 {
            Err(failure(E_FAIL))
        } else {
            Ok(())
        }
    });
    let mut statuses: Vec<StatusCode> = Vec::new();
    for _ in 0..6 {
        statuses.push(adapter.invoke(()));
    }
    let expected: Vec<StatusCode> = vec![
        StatusCode(0),
        StatusCode(E_FAIL),
        StatusCode(0),
        StatusCode(E_FAIL),
        StatusCode(0),
        StatusCode(E_FAIL),
    ];
    assert_eq!(statuses, expected);
}

#[test]
fn multi_shot_adapter_keeps_nothing_between_calls() {
    let seen: Rc<RefCell<Vec<String>>> = Rc::new(RefCell::new(Vec::new()));
    let sink = Rc::clone(&seen);
    let mut adapter = EventCallback::<WideString, _>::create(move |text: String| {
        sink.borrow_mut().push(text);
        Ok(())
    });
    assert_eq!(adapter.invoke(wide("first")), StatusCode(0));
    assert_eq!(adapter.invoke(wide("")), StatusCode(0));
    assert_eq!(adapter.invoke(wide("third")), StatusCode(0));
    assert_eq!(*seen.borrow(), vec![String::from("first"), String::new(), String::from("third")]);
}

#[test]
fn multi_shot_adapter_gives_the_closure_references_of_its_own() {
    let kept: Rc<RefCell<Vec<Rc<String>>>> = Rc::new(RefCell::new(Vec::new()));
    let sink = Rc::clone(&kept);
    let mut adapter = EventCallback::<(Option<Rc<String>>, Option<Rc<String>>), _>::create(
        move |(sender, _args): (Option<Rc<String>>, Option<Rc<String>>)| {
            if let Some(sender) = sender {
                sink.borrow_mut().push(sender);
            }
            Ok(())
        },
    );
    let object: Rc<String> = Rc::new(String::from("view"));
    let sender: Option<Rc<String>> = Some(Rc::clone(&object));
    assert_eq!(Rc::strong_count(&object), 2);
    assert_eq!(adapter.invoke((&sender, &None)), StatusCode(0));
    assert_eq!(Rc::strong_count(&object), 3);
    drop(sender);
    assert_eq!(kept.borrow()[0].as_str(), "view");
    kept.borrow_mut().clear();
    assert_eq!(Rc::strong_count(&object), 1);
}

#[test]
fn multi_shot_call_takes_converted_arguments() {
    let mut adapter = EventCallback::<StatusCode, _>::create(|status: Result<(), Failure>| status);
    assert_eq!(adapter.call(Err(failure(-5))), StatusCode(-5));
    assert_eq!(adapter.call(Ok(())), StatusCode(0));
}

#[test]
fn adapters_take_no_one_and_two_arguments() {
    let mut none = EventCallback::<(), _>::create(|()| Ok(()));
    assert_eq!(none.invoke(()), StatusCode(0));

    let mut one = EventCallback::<WideString, _>::create(|text: String| {
        if text.is_empty() {
            Err(failure(E_FAIL))
        } else {
            Ok(())
        }
    });
    assert_eq!(one.invoke(wide("x")), StatusCode(0));
    assert_eq!(one.invoke(WideString::null()), StatusCode(E_FAIL));

    let mut two = CompletedCallback::<(StatusCode, Option<Rc<u8>>), _>::create(
        |(status, object): (Result<(), Failure>, Option<Rc<u8>>)| {
            status?;
            match object {
                Some(_) => Ok(()),
                None => Err(failure(E_FAIL)),
            }
        },
    );
    assert_eq!(two.invoke((StatusCode(0), &None)), Ok(StatusCode(E_FAIL)));
}
