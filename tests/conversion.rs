use form_tool::controls::{ControlBuilder, Unset};
use form_tool::convert::{
    DefaultParse, FromFormat, FromParse, OptionalFormat, OptionalParse, ParseFn, TextFormat,
    TextParse, UnparseFn,
};
use form_tool::state::ValidationState;
use form_tool::text_input::TextInputData;

#[derive(Clone, Debug, PartialEq)]
struct Settings {
    count: u32,
    limit: Option<u32>,
}

fn settings() -> Settings {
    Settings { count: 1, limit: Some(9) }
}

type Start = ControlBuilder<TextInputData, (), Unset, Unset, Unset, Unset, Unset, Unset>;

fn start() -> Start {
    ControlBuilder::new(TextInputData::default())
}

#[test]
fn textual_round_trip() {
    for raw in ["0", "17", "+42", "007", "4294967295"] {
        let p = TextParse { trim: false, msg: None };
        let v: u32 = p.parse(raw.to_string()).unwrap();
        let text: String = TextFormat.unparse(v);
        let again: Result<u32, String> = p.parse(text);
        assert_eq!(again, Ok(v));
    }
    let p = TextParse { trim: false, msg: None };
    let v: bool = p.parse("false".to_string()).unwrap();
    let text: String = TextFormat.unparse(v);
    assert_eq!(text, "false");
    let again: Result<bool, String> = p.parse(text);
    assert_eq!(again, Ok(false));
}

#[test]
fn trimmed_parse_ignores_padding() {
    let p = TextParse { trim: true, msg: None };
    let plain: Result<u32, String> = p.parse("17".to_string());
    let padded: Result<u32, String> = p.parse(" \t17\n ".to_string());
    assert_eq!(plain, Ok(17));
    assert_eq!(padded, Ok(17));
    let bad: Result<u32, String> = p.parse("x".to_string());
    let bad_padded: Result<u32, String> = p.parse("  x ".to_string());
    assert_eq!(bad, bad_padded);
}

#[test]
fn untrimmed_parse_rejects_padding() {
    let p = TextParse { trim: false, msg: None };
    let r: Result<u32, String> = p.parse(" 17 ".to_string());
    assert_eq!(r, Err("invalid digit found in string".to_string()));
}

#[test]
fn custom_message_replaces_parse_error() {
    let p = TextParse { trim: true, msg: Some("enter a whole number".to_string()) };
    let r: Result<u32, String> = p.parse("abc".to_string());
    assert_eq!(r, Err("enter a whole number".to_string()));
    let r: Result<u32, String> = p.parse("".to_string());
    assert_eq!(r, Err("enter a whole number".to_string()));
}

#[test]
fn parse_error_texts() {
    let p = TextParse { trim: false, msg: None };
    let r: Result<u32, String> = p.parse("".to_string());
    assert_eq!(r, Err("cannot parse integer from empty string".to_string()));
    let r: Result<u32, String> = p.parse("4294967296".to_string());
    assert_eq!(r, Err("number too large to fit in target type".to_string()));
    let r: Result<bool, String> = p.parse("yes".to_string());
    assert!(r.is_err());
}

#[test]
fn defaulting_parse_never_fails() {
    let p = DefaultParse { trim: false };
    let r: Result<u32, String> = p.parse("abc".to_string());
    assert_eq!(r, Ok(0));
    let r: Result<u32, String> = p.parse("23".to_string());
    assert_eq!(r, Ok(23));
    let r: Result<u32, String> = p.parse(" 23".to_string());
    assert_eq!(r, Ok(0));
    let t = DefaultParse { trim: true };
    let r: Result<u32, String> = t.parse(" 23 ".to_string());
    assert_eq!(r, Ok(23));
    let r: Result<bool, String> = t.parse("maybe".to_string());
    assert_eq!(r, Ok(false));
}

#[test]
fn optional_parse_never_fails() {
    let p = OptionalParse { trim: false };
    let r: Result<Option<u32>, String> = p.parse("abc".to_string());
    assert_eq!(r, Ok(None));
    let r: Result<Option<u32>, String> = p.parse("5".to_string());
    assert_eq!(r, Ok(Some(5)));
    let t = OptionalParse { trim: true };
    let r: Result<Option<u32>, String> = t.parse(" 5 ".to_string());
    assert_eq!(r, Ok(Some(5)));
}

#[test]
fn optional_format_absent_is_empty() {
    let s: String = OptionalFormat.unparse(None::<u32>);
    assert_eq!(s, "");
    let s: String = OptionalFormat.unparse(Some(12u32));
    assert_eq!(s, "12");
}

#[test]
fn defaulting_field_never_reports_parse_error() {
    let built = start()
        .getter(|s: &Settings| s.count)
        .setter(|mut s: Settings, v: u32| {
            s.count = v;
            s
        })
        .parse_trimmed_or_default()
        .build()
        .ok()
        .unwrap();
    let (s, state) = built.apply_input::<Settings, String, u32>(settings(), "many".to_string());
    assert_eq!(state, ValidationState::Passed);
    assert_eq!(s.count, 0);
    let (s, state) = built.apply_input::<Settings, String, u32>(settings(), " 4 ".to_string());
    assert_eq!(state, ValidationState::Passed);
    assert_eq!(s.count, 4);
}

#[test]
fn optional_field_never_reports_parse_error() {
    let built = start()
        .getter(|s: &Settings| s.limit)
        .setter(|mut s: Settings, v: Option<u32>| {
            s.limit = v;
            s
        })
        .parse_optional_trimmed()
        .build()
        .ok()
        .unwrap();
    let (s, state) =
        built.apply_input::<Settings, String, Option<u32>>(settings(), "none".to_string());
    assert_eq!(state, ValidationState::Passed);
    assert_eq!(s.limit, None);
    let raw: String = built.raw_value::<Settings, String, Option<u32>>(&s);
    assert_eq!(raw, "");
}

#[test]
fn try_from_pipeline() {
    let p = FromParse { msg: None };
    let r: Result<u8, String> = p.parse(300i64);
    assert_eq!(r, Err("out of range integral type conversion attempted".to_string()));
    let r: Result<u8, String> = p.parse(200i64);
    assert_eq!(r, Ok(200));
    let q = FromParse { msg: Some("too big".to_string()) };
    let r: Result<u8, String> = q.parse(-1i64);
    assert_eq!(r, Err("too big".to_string()));
    let back: i64 = FromFormat.unparse(200u8);
    assert_eq!(back, 200);
}

#[test]
fn parse_from_builder_sets_pipeline() {
    let b = start().parse_from();
    assert!(b.parse_fn.unwrap().msg.is_none());
    let b = start().parse_from_msg("out of range");
    assert_eq!(b.parse_fn.unwrap().msg, Some("out of range".to_string()));
}

#[test]
fn builder_pipeline_selectors() {
    let b = start().parse_string();
    let p = b.parse_fn.unwrap();
    assert!(!p.trim && p.msg.is_none());
    let b = start().parse_trimmed_msg("nope");
    let p = b.parse_fn.unwrap();
    assert!(p.trim);
    assert_eq!(p.msg, Some("nope".to_string()));
    assert!(!start().parse_optional().parse_fn.unwrap().trim);
    assert!(!start().parse_or_default().parse_fn.unwrap().trim);
}

#[derive(Clone, Debug, PartialEq)]
struct Profile {
    name: String,
}

#[test]
fn string_field_through_textual_pipeline() {
    let p = TextParse { trim: false, msg: None };
    let r: Result<String, String> = p.parse("  Ann ".to_string());
    assert_eq!(r, Ok("  Ann ".to_string()));
    let t = TextParse { trim: true, msg: None };
    let r: Result<String, String> = t.parse("  Ann \n".to_string());
    assert_eq!(r, Ok("Ann".to_string()));
    let back: String = TextFormat.unparse("Ann".to_string());
    assert_eq!(back, "Ann");

    let built = start()
        .named("name")
        .getter(|p: &Profile| p.name.clone())
        .setter(|mut p: Profile, v: String| {
            p.name = v;
            p
        })
        .parse_trimmed()
        .build()
        .ok()
        .unwrap();
    let profile = Profile { name: String::new() };
    let (profile, state) = built.apply_input::<Profile, String, String>(profile, " Bo ".to_string());
    assert_eq!(state, ValidationState::Passed);
    assert_eq!(profile.name, "Bo");
    let raw: String = built.raw_value::<Profile, String, String>(&profile);
    assert_eq!(raw, "Bo");
}

#[test]
fn string_default_and_optional() {
    let d = DefaultParse { trim: true };
    let r: Result<String, String> = d.parse(" x ".to_string());
    assert_eq!(r, Ok("x".to_string()));
    let o = OptionalParse { trim: false };
    let r: Result<Option<String>, String> = o.parse("".to_string());
    assert_eq!(r, Ok(Some(String::new())));
}
