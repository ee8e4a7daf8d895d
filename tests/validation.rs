use form_tool::controls::{ControlBuilder, Unset, ValidationFn};
use form_tool::form::{FieldCheck, Form, FormValidator};
use form_tool::state::ValidationState;
use form_tool::text_input::TextInputData;
use std::cell::Cell;

#[derive(Clone, Debug, PartialEq)]
struct Signup {
    age: u32,
    name: String,
    email: String,
    phone: String,
    has_phone: bool,
}

fn signup() -> Signup {
    Signup {
        age: 0,
        name: "Ann".to_string(),
        email: String::new(),
        phone: String::new(),
        has_phone: true,
    }
}

type Start = ControlBuilder<TextInputData, (), Unset, Unset, Unset, Unset, Unset, Unset>;

fn start() -> Start {
    ControlBuilder::new(TextInputData::default())
}

fn required(value: &str, msg: &str) -> Result<(), String> {
    if value.is_empty() {
        Err(msg.to_string())
    } else {
        Ok(())
    }
}

type Check<'a> = Box<dyn Fn(&Signup) -> Result<(), String> + 'a>;

#[test]
fn age_field_scenario() {
    let ran = Cell::new(0u32);
    let age = start()
        .named("age")
        .getter(|s: &Signup| s.age)
        .setter(|mut s: Signup, v: u32| {
            s.age = v;
            s
        })
        .parse_trimmed()
        .validation_fn(|s: &Signup| {
            ran.set(ran.get() + 1);
            if s.age >= 18 {
                Ok(())
            } else {
                Err("must be 18 or older".to_string())
            }
        })
        .build()
        .ok()
        .unwrap();

    let (record, state) = age.apply_input::<Signup, String, u32>(signup(), " 17 ".to_string());
    assert_eq!(record.age, 17);
    assert!(!state.is_parse_err());
    assert_eq!(state, ValidationState::ValidationError("must be 18 or older".to_string()));
    assert_eq!(ran.get(), 1);

    let field = FieldCheck { control: age, context: () };
    let checks: Vec<Check> = vec![Box::new(move |s: &Signup| field.validate(s))];
    let validator = FormValidator::new(checks);
    assert_eq!(validator.validate(&record), Err("must be 18 or older".to_string()));
    assert_eq!(ran.get(), 2);
}

#[test]
fn age_field_unparseable_input() {
    let ran = Cell::new(0u32);
    let age = start()
        .getter(|s: &Signup| s.age)
        .setter(|mut s: Signup, v: u32| {
            s.age = v;
            s
        })
        .parse_trimmed()
        .validation_fn(|s: &Signup| {
            ran.set(ran.get() + 1);
            if s.age >= 18 {
                Ok(())
            } else {
                Err("must be 18 or older".to_string())
            }
        })
        .build()
        .ok()
        .unwrap();
    let (record, state) = age.apply_input::<Signup, String, u32>(signup(), "abc".to_string());
    assert_eq!(state, ValidationState::ParseError("invalid digit found in string".to_string()));
    assert_eq!(record, signup());
    assert_eq!(ran.get(), 0);

    let (record, state) = age.apply_input::<Signup, String, u32>(signup(), "21".to_string());
    assert_eq!(state, ValidationState::Passed);
    assert_eq!(record.age, 21);
    assert_eq!(ran.get(), 1);
}

#[test]
fn first_declared_failure_wins() {
    let checks: Vec<Check> = vec![
        Box::new(|s: &Signup| required(&s.email, "email is required")),
        Box::new(|s: &Signup| required(&s.phone, "phone is required")),
    ];
    let validator = FormValidator::new(checks);
    assert_eq!(validator.validate(&signup()), Err("email is required".to_string()));
}

#[test]
fn validation_stops_at_first_failure() {
    let first = Cell::new(0u32);
    let second = Cell::new(0u32);
    let checks: Vec<Check> = vec![
        Box::new(|_s: &Signup| {
            first.set(first.get() + 1);
            Err("first".to_string())
        }),
        Box::new(|_s: &Signup| {
            second.set(second.get() + 1);
            Err("second".to_string())
        }),
    ];
    let validator = FormValidator::new(checks);
    assert_eq!(validator.validate(&signup()), Err("first".to_string()));
    assert_eq!(first.get(), 1);
    assert_eq!(second.get(), 0);
}

#[test]
fn all_passing_checks_give_success() {
    let checks: Vec<Check> = vec![
        Box::new(|s: &Signup| required(&s.name, "name is required")),
        Box::new(|_s: &Signup| Ok(())),
    ];
    let validator = FormValidator::new(checks);
    assert_eq!(validator.validate(&signup()), Ok(()));
    let none: Vec<Check> = Vec::new();
    assert_eq!(FormValidator::new(none).validate(&signup()), Ok(()));
}

#[test]
fn hidden_field_does_not_block() {
    let ran = Cell::new(0u32);
    let phone = start()
        .named("phone")
        .getter(|s: &Signup| s.phone.clone())
        .setter(|mut s: Signup, v: String| {
            s.phone = v;
            s
        })
        .parse_custom(|raw: String| Ok::<String, String>(raw), |v: String| v)
        .validation_fn(|s: &Signup| {
            ran.set(ran.get() + 1);
            required(&s.phone, "phone is required")
        })
        .show_when(|s: &Signup, _cx: &()| s.has_phone)
        .build()
        .ok()
        .unwrap();
    let field = FieldCheck { control: phone, context: () };

    let mut hidden = signup();
    hidden.has_phone = false;
    assert_eq!(field.validate(&hidden), Ok(()));
    assert_eq!(ran.get(), 0);
    assert!(!field.control.is_shown(&hidden, &()));

    let shown = signup();
    assert_eq!(field.validate(&shown), Err("phone is required".to_string()));
    assert_eq!(ran.get(), 1);

    let checks: Vec<Check> = vec![
        Box::new(|s: &Signup| required(&s.name, "name is required")),
        Box::new(move |s: &Signup| field.validate(s)),
    ];
    let validator = FormValidator::new(checks);
    assert_eq!(validator.validate(&hidden), Ok(()));
    assert_eq!(validator.validate(&shown), Err("phone is required".to_string()));
}

#[test]
fn visibility_uses_the_context() {
    let field = FieldCheck {
        control: start()
            .getter(|s: &Signup| s.email.clone())
            .setter(|mut s: Signup, v: String| {
                s.email = v;
                s
            })
            .parse_custom(|raw: String| Ok::<String, String>(raw), |v: String| v)
            .validation_fn(|s: &Signup| required(&s.email, "email is required"))
            .show_when(|_s: &Signup, admin: &bool| !*admin)
            .build()
            .ok()
            .unwrap(),
        context: true,
    };
    assert_eq!(field.validate(&signup()), Ok(()));
}

fn name_check(s: &Signup) -> Result<(), String> {
    required(&s.name, "name is required")
}

fn email_check(s: &Signup) -> Result<(), String> {
    required(&s.email, "email is required")
}

#[test]
fn form_assembly_and_parts() {
    let checks: Vec<fn(&Signup) -> Result<(), String>> = vec![name_check, email_check];
    let form = Form::new(signup(), checks, "view".to_string());
    assert_eq!(form.validate(), Err("email is required".to_string()));
    let validator = form.validator();
    let mut filled = signup();
    filled.email = "ann@example.com".to_string();
    assert_eq!(validator.validate(&filled), Ok(()));
    let (record, validator, view) = form.to_parts();
    assert_eq!(record, signup());
    assert_eq!(validator.validate(&record), Err("email is required".to_string()));
    assert_eq!(view, "view");
    let form = Form::new(filled, vec![name_check as fn(&Signup) -> Result<(), String>], 7u8);
    assert_eq!(form.validate(), Ok(()));
    assert_eq!(form.into_view(), 7);
}
