use greeter::client::{client_example, request_payload};
use greeter::payload::Payload;

#[test]
fn new_keeps_both_parts() {
    let p = Payload::new("label".to_string(), vec![1, 2, 3]);
    assert_eq!(p.label, "label");
    assert_eq!(p.codes, vec![1, 2, 3]);
}

#[test]
fn same_as_compares_label_and_sequence() {
    let p = Payload::new("a".to_string(), vec![1, 2, 3]);
    assert!(p.same_as(&Payload::new("a".to_string(), vec![1, 2, 3])));
    assert!(!p.same_as(&Payload::new("b".to_string(), vec![1, 2, 3])));
    assert!(!p.same_as(&Payload::new("a".to_string(), vec![1, 2])));
    assert!(!p.same_as(&Payload::new("a".to_string(), vec![1, 2, 4])));
    assert!(!p.same_as(&Payload::new("a".to_string(), vec![1, 2, 3, 4])));
    assert!(!p.same_as(&Payload::new("a".to_string(), vec![0, 2, 3])));
}

#[test]
fn same_as_on_empty_payloads() {
    let p = Payload::new(String::new(), vec![]);
    assert!(p.same_as(&Payload::new(String::new(), vec![])));
    assert!(!p.same_as(&Payload::new(String::new(), vec![0])));
}

#[test]
fn client_sends_the_sample_payload() {
    let p = request_payload();
    assert_eq!(p.label, "Foo");
    assert_eq!(p.codes, vec![2, 3, 4]);
}

#[test]
fn client_accepts_an_exact_echo() {
    assert!(client_example(&Payload::new("Foo".to_string(), vec![2, 3, 4])));
    assert!(client_example(&request_payload()));
}

#[test]
fn client_rejects_a_changed_echo() {
    assert!(!client_example(&Payload::new("foo".to_string(), vec![2, 3, 4])));
    assert!(!client_example(&Payload::new("Foo".to_string(), vec![2, 3])));
    assert!(!client_example(&Payload::new("Foo".to_string(), vec![4, 3, 2])));
    assert!(!client_example(&Payload::new(String::new(), vec![])));
}
