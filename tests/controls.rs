use form_tool::controls::{ControlBuilder, FieldGetter, VanityControlBuilder, Unset};
use form_tool::convert::{ParseFn, TextFormat, TextParse, UnparseFn};
use form_tool::state::{ControlBuildError, UpdateEvent, ValidationState};
use form_tool::text_input::TextInputData;

#[derive(Clone, Debug, PartialEq)]
struct Person {
    age: u32,
    name: String,
}

fn person() -> Person {
    Person { age: 30, name: "Ann".to_string() }
}

fn get_age(p: &Person) -> u32 {
    p.age
}

fn set_age(mut p: Person, v: u32) -> Person {
    p.age = v;
    p
}

fn parse_age(s: String) -> Result<u32, String> {
    s.parse::<u32>().map_err(|e| e.to_string())
}

fn unparse_age(v: u32) -> String {
    v.to_string()
}

type Start = ControlBuilder<TextInputData, (), Unset, Unset, Unset, Unset, Unset, Unset>;

fn start() -> Start {
    ControlBuilder::new(TextInputData::default())
}

#[test]
fn validation_state_accessors() {
    let passed = ValidationState::default();
    assert!(passed.is_passed());
    assert!(!passed.is_err());
    assert_eq!(passed.msg(), None);
    assert_eq!(passed.clone().take_msg(), None);

    let parse = ValidationState::ParseError("bad number".to_string());
    assert!(parse.is_err());
    assert!(parse.is_parse_err());
    assert!(!parse.is_validation_err());
    assert_eq!(parse.msg(), Some(&"bad number".to_string()));
    assert_eq!(parse.take_msg(), Some("bad number".to_string()));

    let invalid = ValidationState::ValidationError("too small".to_string());
    assert!(invalid.is_err());
    assert!(invalid.is_validation_err());
    assert!(!invalid.is_parse_err());
    assert_eq!(invalid.take_msg(), Some("too small".to_string()));
}

#[test]
fn update_event_defaults_to_on_change() {
    assert_eq!(UpdateEvent::default(), UpdateEvent::OnChange);
}

#[test]
fn build_error_messages() {
    assert_eq!(ControlBuildError::MissingGetter.message(), "missing getter function");
    assert_eq!(ControlBuildError::MissingSetter.message(), "missing setter function");
    assert_eq!(ControlBuildError::MissingParseFn.message(), "missing parse function");
    assert_eq!(ControlBuildError::MissingUnParseFn.message(), "missing unparse function");
}

#[test]
fn build_without_anything_reports_getter() {
    let r = start().build();
    assert_eq!(r.err(), Some(ControlBuildError::MissingGetter));
}

#[test]
fn build_missing_only_getter() {
    let b = start().setter(set_age).parse_custom(parse_age, unparse_age);
    assert_eq!(b.build().err(), Some(ControlBuildError::MissingGetter));
}

#[test]
fn build_missing_only_setter() {
    let b = start().getter(get_age).parse_custom(parse_age, unparse_age);
    assert_eq!(b.build().err(), Some(ControlBuildError::MissingSetter));
}

#[test]
fn build_missing_only_parse() {
    let mut b = start().getter(get_age).setter(set_age).parse_custom(parse_age, unparse_age);
    b.parse_fn = None;
    assert_eq!(b.build().err(), Some(ControlBuildError::MissingParseFn));
}

#[test]
fn build_missing_only_unparse() {
    let mut b = start().getter(get_age).setter(set_age).parse_custom(parse_age, unparse_age);
    b.unparse_fn = None;
    assert_eq!(b.build().err(), Some(ControlBuildError::MissingUnParseFn));
}

#[test]
fn build_missing_setter_and_parse_reports_setter() {
    let b = start().getter(get_age);
    assert_eq!(b.build().err(), Some(ControlBuildError::MissingSetter));
}

#[test]
fn build_missing_parse_pair_reports_parse() {
    let b = start().getter(get_age).setter(set_age);
    assert_eq!(b.build().err(), Some(ControlBuildError::MissingParseFn));
}

#[test]
fn build_complete_keeps_components() {
    let built = start()
        .named("age")
        .style(())
        .getter(get_age)
        .setter(set_age)
        .parse_trimmed()
        .build()
        .ok()
        .unwrap();
    assert_eq!(built.render_data.data.name, "age");
    assert_eq!(built.render_data.styles.len(), 1);
    assert!(built.validation_fn.is_none());
    assert!(built.show_when.is_none());
    assert_eq!(built.getter.get(&person()), 30);
    let raw: String = built.raw_value::<Person, String, u32>(&person());
    assert_eq!(raw, "30");
}

#[test]
fn later_parse_pair_replaces_earlier() {
    let b = start().parse_string_msg("first").parse_trimmed();
    let p = b.parse_fn.unwrap();
    assert!(p.trim);
    assert!(p.msg.is_none());
    let r: Result<u32, String> = p.parse(" 5 ".to_string());
    assert_eq!(r, Ok(5));
}

#[test]
fn text_input_setters() {
    let b = start()
        .named("email")
        .labeled("E-mail")
        .placeholder("you@example.com")
        .password()
        .update_on(UpdateEvent::OnInput);
    assert_eq!(b.data.name, "email");
    assert_eq!(b.data.label, Some("E-mail".to_string()));
    assert_eq!(b.data.placeholder, Some("you@example.com".to_string()));
    assert_eq!(b.data.input_type, "password");
    assert_eq!(b.data.update_event, UpdateEvent::OnInput);
    let b = b.date();
    assert_eq!(b.data.input_type, "date");
    let b = b.input_type("number");
    assert_eq!(b.data.input_type, "number");
}

#[test]
fn text_input_default_data() {
    let d = TextInputData::default();
    assert_eq!(d.name, "");
    assert_eq!(d.label, None);
    assert_eq!(d.placeholder, None);
    assert_eq!(d.input_type, "input");
    assert_eq!(d.update_event, UpdateEvent::OnChange);
}

struct Heading;

impl form_tool::controls::VanityControlData for Heading {}
impl form_tool::controls::GetterVanityControlData for Heading {}

#[test]
fn vanity_build_always_succeeds() {
    let built = VanityControlBuilder::<Heading, u8, Unset, Unset>::new(Heading).style(3).build();
    assert!(built.getter.is_none());
    assert!(built.show_when.is_none());
    assert_eq!(built.render_data.styles, vec![3]);

    let built = VanityControlBuilder::<Heading, u8, Unset, Unset>::new(Heading)
        .getter(|p: &Person| p.name.clone())
        .show_when(|p: &Person, _cx: &()| p.age > 10)
        .build();
    let g = built.getter.unwrap();
    assert_eq!(g(&person()), "Ann");
    let w = built.show_when.unwrap();
    assert!(w(&person(), &()));
}

#[test]
fn text_format_writes_decimal() {
    let s: String = UnparseFn::<String, u32>::unparse(&TextFormat, 4096);
    assert_eq!(s, "4096");
    let s: String = UnparseFn::<String, bool>::unparse(&TextFormat, true);
    assert_eq!(s, "true");
}

#[test]
fn text_parse_reports_underlying_error() {
    let p = TextParse { trim: false, msg: None };
    let r: Result<u32, String> = p.parse("12a".to_string());
    assert_eq!(r, Err("invalid digit found in string".to_string()));
    let r: Result<u32, String> = p.parse(" 12".to_string());
    assert!(r.is_err());
    let r: Result<u32, String> = p.parse("+12".to_string());
    assert_eq!(r, Ok(12));
}
