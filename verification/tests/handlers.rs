use greeter::handlers::{decode_json, greet, return_json, DecodeError, BAD_REQUEST};
use greeter::payload::Payload;
use greeter::text::decode_text;

fn payload(label: &str, codes: Vec<u32>) -> Payload {
    Payload::new(label.to_string(), codes)
}

#[test]
fn fetch_returns_the_fixed_payload() {
    let p = return_json();
    assert_eq!(p.label, "foo");
    assert_eq!(p.codes, vec![98, 97, 114]);
}

#[test]
fn fetch_is_the_same_every_time() {
    let first = return_json();
    let second = return_json();
    assert_eq!(first, second);
    assert!(first.same_as(&second));
}

#[test]
fn echo_of_the_fixed_payload() {
    assert_eq!(decode_json(return_json()), Ok("foobar".to_string()));
}

#[test]
fn echo_puts_nothing_between_label_and_text() {
    assert_eq!(decode_json(payload("foo", vec![98, 97, 114])), Ok("foobar".to_string()));
    assert_eq!(decode_json(payload("Foo", vec![72, 105])), Ok("FooHi".to_string()));
    assert_eq!(decode_json(payload("", vec![72, 105])), Ok("Hi".to_string()));
    assert_eq!(decode_json(payload("a ", vec![32, 98])), Ok("a  b".to_string()));
}

#[test]
fn echo_of_an_empty_sequence() {
    assert_eq!(decode_json(payload("foo", vec![])), Ok("foo".to_string()));
    assert_eq!(decode_json(payload("only", vec![])), Ok("only".to_string()));
    assert_eq!(decode_json(payload("", vec![])), Ok(String::new()));
}

#[test]
fn echo_decodes_beyond_ascii() {
    assert_eq!(
        decode_json(payload("x", vec![0xE9, 0x20AC, 0x1F600])),
        Ok("x\u{e9}\u{20ac}\u{1f600}".to_string())
    );
}

#[test]
fn echo_accepts_the_edges_of_the_character_range() {
    assert_eq!(
        decode_json(payload("e", vec![0, 0xD7FF, 0xE000, 0x10FFFF])),
        Ok("e\u{0}\u{d7ff}\u{e000}\u{10ffff}".to_string())
    );
}

#[test]
fn echo_keeps_each_code_point_as_one_character() {
    let text = decode_json(payload("", vec![0x10FFFF, 0x20AC, 0])).unwrap();
    assert_eq!(text, "\u{10FFFF}\u{20AC}\u{0}");
    assert_eq!(text.chars().count(), 3);
    assert_eq!(text.len(), 8);
}

#[test]
fn echo_is_as_long_as_label_and_sequence() {
    let text = decode_json(payload("label", vec![0x41, 0xE9, 0x1F600, 0x7A])).unwrap();
    assert_eq!(text.chars().count(), 5 + 4);
    assert!(text.starts_with("label"));
    assert_eq!(&text["label".len()..], "A\u{e9}\u{1f600}z");
}

#[test]
fn echo_rejects_a_surrogate() {
    assert_eq!(
        decode_json(payload("s", vec![0xD800])),
        Err(DecodeError { index: 0, value: 0xD800 })
    );
    assert_eq!(
        decode_json(payload("s", vec![0xDFFF])),
        Err(DecodeError { index: 0, value: 0xDFFF })
    );
}

#[test]
fn echo_rejects_a_value_past_the_last_code_point() {
    assert_eq!(
        decode_json(payload("s", vec![0x110000])),
        Err(DecodeError { index: 0, value: 0x110000 })
    );
    assert_eq!(
        decode_json(payload("s", vec![u32::MAX])),
        Err(DecodeError { index: 0, value: u32::MAX })
    );
}

#[test]
fn echo_gives_no_partial_text() {
    let r = decode_json(payload("foo", vec![98, 97, 0xD800, 114]));
    assert_eq!(r, Err(DecodeError { index: 2, value: 0xD800 }));
    assert!(r.is_err());
}

#[test]
fn echo_names_the_first_invalid_element() {
    let r = decode_json(payload("foo", vec![98, 0x110000, 0xD800]));
    assert_eq!(r, Err(DecodeError { index: 1, value: 0x110000 }));
}

#[test]
fn decode_error_is_a_client_error() {
    let e = decode_json(payload("foo", vec![0xDABC])).unwrap_err();
    assert_eq!(e.status(), 400);
    assert_eq!(BAD_REQUEST, 400);
}

#[test]
fn greet_bob() {
    assert_eq!(greet("Bob"), "Hello Bob");
}

#[test]
fn greet_keeps_the_name_as_it_is() {
    assert_eq!(greet(""), "Hello ");
    assert_eq!(greet("a b/c"), "Hello a b/c");
    assert_eq!(greet("Zo\u{eb}"), "Hello Zo\u{eb}");
}

#[test]
fn decode_text_turns_codes_into_characters() {
    assert_eq!(decode_text(&vec![104, 105]), Ok("hi".to_string()));
    assert_eq!(decode_text(&vec![]), Ok(String::new()));
    assert_eq!(decode_text(&vec![0x263A]), Ok("\u{263a}".to_string()));
}

#[test]
fn decode_text_appends_in_order() {
    assert_eq!(decode_text(&vec![97, 98, 99, 100]), Ok("abcd".to_string()));
}

#[test]
fn decode_text_reports_the_first_invalid_position() {
    assert_eq!(decode_text(&vec![104, 0xD900, 105, 0xDA00]), Err(1));
    assert_eq!(decode_text(&vec![0xFFFF_FFFF]), Err(0));
}
