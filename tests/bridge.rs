use mri_sys::codec::{decode_address, encode_address};
use mri_sys::protect::{protect_outcome, take_pending_exception};
use mri_sys::value::{Qnil, Qtrue};
use mri_sys::{CaughtException, ClosureSlot, ProtectOutcome, Value, VALUE};
use std::cell::Cell;

fn address_of<T>(r: &T) -> usize {
    let text = format!("{:p}", r);
    usize::from_str_radix(text.trim_start_matches("0x"), 16).unwrap()
}

#[test]
fn address_text_is_decimal() {
    assert_eq!(encode_address(0), b"0".to_vec());
    assert_eq!(encode_address(7), b"7".to_vec());
    assert_eq!(encode_address(10), b"10".to_vec());
    assert_eq!(encode_address(1234567890), b"1234567890".to_vec());
    assert_eq!(encode_address(usize::MAX), usize::MAX.to_string().into_bytes());
}

#[test]
fn address_round_trip() {
    let local = 5u8;
    let here = address_of(&local);
    for address in [0usize, 1, 9, 10, 99, 100, 4096, here, usize::MAX - 1, usize::MAX] {
        assert_eq!(decode_address(&encode_address(address)), Some(address));
    }
}

#[test]
fn address_decoding_rejects_malformed_text() {
    assert_eq!(decode_address(b""), None);
    assert_eq!(decode_address(b"12a"), None);
    assert_eq!(decode_address(b"-1"), None);
    assert_eq!(decode_address(b" 1"), None);
    let too_large = format!("{}0", usize::MAX);
    assert_eq!(decode_address(too_large.as_bytes()), None);
    assert_eq!(decode_address(b"007"), Some(7));
    assert_eq!(decode_address(b"140737488346112"), Some(140737488346112));
}

#[test]
fn distinct_slots_have_distinct_texts() {
    let outer = 0u64;
    let inner = 0u64;
    let a = address_of(&outer);
    let b = address_of(&inner);
    assert_ne!(a, b);
    assert_ne!(encode_address(a), encode_address(b));
}

#[test]
fn slot_runs_its_closure_once() {
    let runs = Cell::new(0u32);
    let mut slot = ClosureSlot::new(|| {
        runs.set(runs.get() + 1);
        Value(VALUE(0x15))
    });
    assert!(!slot.is_consumed());
    assert_eq!(slot.invoke(), Some(Value(VALUE(0x15))));
    assert!(slot.is_consumed());
    assert_eq!(runs.get(), 1);
}

#[test]
fn second_resolution_runs_nothing() {
    let runs = Cell::new(0u32);
    let mut slot = ClosureSlot::new(|| {
        runs.set(runs.get() + 1);
        Value::nil()
    });
    assert_eq!(slot.invoke(), Some(Value::nil()));
    assert_eq!(slot.invoke(), None);
    assert_eq!(slot.invoke(), None);
    assert_eq!(runs.get(), 1);
}

#[test]
fn taken_slot_is_empty() {
    let mut slot = ClosureSlot::new(|| Value::from(true));
    let f = slot.take().expect("a fresh slot holds its closure");
    assert!(slot.is_consumed());
    assert!(slot.take().is_none());
    assert_eq!(f(), Value(VALUE(Qtrue)));
}

#[test]
fn zero_status_returns_the_word() {
    assert_eq!(
        protect_outcome(0, VALUE(0x2b)),
        ProtectOutcome::Returned(Value(VALUE(0x2b)))
    );
}

#[test]
fn nonzero_status_is_raised() {
    assert_eq!(protect_outcome(1, VALUE(0x2b)), ProtectOutcome::Raised);
    assert_eq!(protect_outcome(6, VALUE(Qnil)), ProtectOutcome::Raised);
    assert_eq!(protect_outcome(-1, VALUE(0)), ProtectOutcome::Raised);
}

#[test]
fn nested_failure_leaves_outer_success() {
    let mut inner_outcome = None;
    let mut outer = ClosureSlot::new(|| {
        let mut inner = ClosureSlot::new(|| Value::nil());
        let word = inner.invoke().unwrap();
        inner_outcome = Some(protect_outcome(6, word.0));
        Value(VALUE(0x15))
    });
    let word = outer.invoke().unwrap();
    assert_eq!(inner_outcome, Some(ProtectOutcome::Raised));
    assert_eq!(
        protect_outcome(0, word.0),
        ProtectOutcome::Returned(Value(VALUE(0x15)))
    );
}

#[test]
fn taking_the_pending_exception_clears_it() {
    let mut pending = Value(VALUE(0x7f00_0000_1000));
    let exception = take_pending_exception(&mut pending);
    assert_eq!(exception, Value(VALUE(0x7f00_0000_1000)));
    assert!(pending.is_nil());
    assert_eq!(take_pending_exception(&mut pending), Value::nil());
}

#[test]
fn caught_exception_keeps_its_parts() {
    let e = CaughtException::new(
        Value(VALUE(0x5000)),
        "NameError".to_string(),
        "undefined local variable or method `foo'".to_string(),
    );
    assert_eq!(e.exception_object, Value(VALUE(0x5000)));
    assert_eq!(e.exception_class_name, "NameError");
    assert_eq!(e.message, "undefined local variable or method `foo'");
}

#[test]
fn caught_exceptions_compare_by_class_and_message() {
    let a = CaughtException::new(Value(VALUE(0x5000)), "NameError".to_string(), "x".to_string());
    let b = CaughtException::new(Value(VALUE(0x6000)), "NameError".to_string(), "x".to_string());
    let c = CaughtException::new(Value(VALUE(0x5000)), "NameError".to_string(), "y".to_string());
    let d = CaughtException::new(Value(VALUE(0x5000)), "TypeError".to_string(), "x".to_string());
    assert_eq!(a, b);
    assert_ne!(a, c);
    assert_ne!(a, d);
}
