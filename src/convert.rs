//! Conversion pipelines between a control's raw value and a field's domain
//! value: the forward direction may fail with a message, the backward one
//! never fails.
use crate::text::{all_white, trim_str, trimmed, TextValue};
use vstd::prelude::*;
use vstd::std_specs::convert::TryFromSpec;
use vstd::string::to_string_from_display_ensures;

verus! {

/// The forward direction of a conversion: raw value to domain value.
pub trait ParseFn<CR, FDT> {
    spec fn parse_requires(&self, raw: CR) -> bool;

    spec fn parse_ensures(&self, raw: CR, r: Result<FDT, String>) -> bool;

    fn parse(&self, raw: CR) -> (r: Result<FDT, String>)
        requires
            self.parse_requires(raw),
        ensures
            self.parse_ensures(raw, r),
    ;
}

/// The backward direction of a conversion: domain value to raw value.
pub trait UnparseFn<CR, FDT> {
    spec fn unparse_requires(&self, value: FDT) -> bool;

    spec fn unparse_ensures(&self, value: FDT, r: CR) -> bool;

    fn unparse(&self, value: FDT) -> (r: CR)
        requires
            self.unparse_requires(value),
        ensures
            self.unparse_ensures(value, r),
    ;
}

impl<CR, FDT, F: Fn(CR) -> Result<FDT, String>> ParseFn<CR, FDT> for F {
    open spec fn parse_requires(&self, raw: CR) -> bool {
        call_requires(*self, (raw,))
    }

    open spec fn parse_ensures(&self, raw: CR, r: Result<FDT, String>) -> bool {
        call_ensures(*self, (raw,), r)
    }

    fn parse(&self, raw: CR) -> (r: Result<FDT, String>) {
        (self)(raw)
    }
}

impl<CR, FDT, F: Fn(FDT) -> CR> UnparseFn<CR, FDT> for F {
    open spec fn unparse_requires(&self, value: FDT) -> bool {
        call_requires(*self, (value,))
    }

    open spec fn unparse_ensures(&self, value: FDT, r: CR) -> bool {
        call_ensures(*self, (value,), r)
    }

    fn unparse(&self, value: FDT) -> (r: CR) {
        (self)(value)
    }
}

/// For a closure, the forward conversion's contract is the closure's own:
/// call this to use a concrete closure where a `ParseFn` is expected.
pub proof fn lemma_fn_parse<CR, FDT, F: Fn(CR) -> Result<FDT, String>>(f: F, raw: CR)
    ensures
        f.parse_requires(raw) == call_requires(f, (raw,)),
        forall|r: Result<FDT, String>| #[trigger]
            f.parse_ensures(raw, r) == call_ensures(f, (raw,), r),
{
}

/// For a closure, the backward conversion's contract is the closure's own.
pub proof fn lemma_fn_unparse<CR, FDT, F: Fn(FDT) -> CR>(f: F, value: FDT)
    ensures
        f.unparse_requires(value) == call_requires(f, (value,)),
        forall|r: CR| #[trigger] f.unparse_ensures(value, r) == call_ensures(f, (value,), r),
{
}

/// The text that is parsed: the raw text, or the raw text trimmed.
pub open spec fn parse_input(trim: bool, raw: Seq<char>) -> Seq<char> {
    if trim {
        trimmed(raw)
    } else {
        raw
    }
}

/// What the textual parse of `raw` gives, if it succeeds.
pub open spec fn text_outcome<T: TextValue>(trim: bool, raw: Seq<char>) -> Option<T::V> {
    T::parse_spec(parse_input(trim, raw))
}

fn text_input(trim: bool, raw: &str) -> (r: &str)
    ensures
        r@ == parse_input(trim, raw@),
{
    if trim {
        trim_str(raw)
    } else {
        raw
    }
}

/// Parses with the domain type's own textual parse, optionally trimming
/// first, and fails with the parse's message or with `msg` where given.
pub struct TextParse {
    pub trim: bool,
    pub msg: Option<String>,
}

impl<T: TextValue> ParseFn<String, T> for TextParse {
    open spec fn parse_requires(&self, raw: String) -> bool {
        true
    }

    open spec fn parse_ensures(&self, raw: String, r: Result<T, String>) -> bool {
        match r {
            Ok(v) => text_outcome::<T>(self.trim, raw@) == Some(v@),
            Err(e) => text_outcome::<T>(self.trim, raw@) is None && e@ == match self.msg {
                Some(m) => m@,
                None => T::error_spec(parse_input(self.trim, raw@)),
            },
        }
    }

    fn parse(&self, raw: String) -> (r: Result<T, String>) {
        let input = text_input(self.trim, raw.as_str());
        match T::parse_text(input) {
            Ok(v) => Ok(v),
            Err(e) => match &self.msg {
                Some(m) => Err(m.clone()),
                None => Err(e),
            },
        }
    }
}

/// Formats with the domain type's own textual format.
pub struct TextFormat;

impl<T: TextValue> UnparseFn<String, T> for TextFormat {
    open spec fn unparse_requires(&self, value: T) -> bool {
        true
    }

    open spec fn unparse_ensures(&self, value: T, r: String) -> bool {
        r@ == T::text_spec(value@)
    }

    fn unparse(&self, value: T) -> (r: String) {
        value.to_text()
    }
}

/// Parses with the domain type's own textual parse, optionally trimming
/// first; a text that does not parse gives the type's default value.
pub struct DefaultParse {
    pub trim: bool,
}

impl<T: TextValue> ParseFn<String, T> for DefaultParse {
    open spec fn parse_requires(&self, raw: String) -> bool {
        true
    }

    open spec fn parse_ensures(&self, raw: String, r: Result<T, String>) -> bool {
        r is Ok && r->Ok_0@ == match text_outcome::<T>(self.trim, raw@) {
            Some(v) => v,
            None => T::default_spec(),
        }
    }

    fn parse(&self, raw: String) -> (r: Result<T, String>) {
        let input = text_input(self.trim, raw.as_str());
        match T::parse_text(input) {
            Ok(v) => Ok(v),
            Err(_) => Ok(T::default_value()),
        }
    }
}

/// Parses with the domain type's own textual parse, optionally trimming
/// first; a text that does not parse gives `None`.
pub struct OptionalParse {
    pub trim: bool,
}

impl<T: TextValue> ParseFn<String, Option<T>> for OptionalParse {
    open spec fn parse_requires(&self, raw: String) -> bool {
        true
    }

    open spec fn parse_ensures(&self, raw: String, r: Result<Option<T>, String>) -> bool {
        r is Ok && match r->Ok_0 {
            Some(v) => text_outcome::<T>(self.trim, raw@) == Some(v@),
            None => text_outcome::<T>(self.trim, raw@) is None,
        }
    }

    fn parse(&self, raw: String) -> (r: Result<Option<T>, String>) {
        let input = text_input(self.trim, raw.as_str());
        match T::parse_text(input) {
            Ok(v) => Ok(Some(v)),
            Err(_) => Ok(None),
        }
    }
}

/// Formats a present value with its own textual format, and an absent one
/// as the empty text.
pub struct OptionalFormat;

impl<T: TextValue> UnparseFn<String, Option<T>> for OptionalFormat {
    open spec fn unparse_requires(&self, value: Option<T>) -> bool {
        true
    }

    open spec fn unparse_ensures(&self, value: Option<T>, r: String) -> bool {
        r@ == match value {
            Some(v) => T::text_spec(v@),
            None => Seq::<char>::empty(),
        }
    }

    fn unparse(&self, value: Option<T>) -> (r: String) {
        match value {
            Some(v) => v.to_text(),
            None => String::new(),
        }
    }
}

/// Converts through the domain type's `TryFrom` of the raw type, failing with
/// the conversion error's text or with `msg` where given.
pub struct FromParse {
    pub msg: Option<String>,
}

impl<CR, FDT: TryFrom<CR>> ParseFn<CR, FDT> for FromParse where
    <FDT as TryFrom<CR>>::Error: std::fmt::Display,
 {
    open spec fn parse_requires(&self, raw: CR) -> bool {
        true
    }

    open spec fn parse_ensures(&self, raw: CR, r: Result<FDT, String>) -> bool {
        FDT::obeys_try_from_spec() ==> match r {
            Ok(v) => FDT::try_from_spec(raw) == Ok::<FDT, FDT::Error>(v),
            Err(e) => FDT::try_from_spec(raw) is Err && match self.msg {
                Some(m) => e == m,
                None => to_string_from_display_ensures::<FDT::Error>(
                    &FDT::try_from_spec(raw)->Err_0,
                    e,
                ),
            },
        }
    }

    fn parse(&self, raw: CR) -> (r: Result<FDT, String>) {
        let res = FDT::try_from(raw);
        match res {
            Ok(v) => Ok(v),
            Err(x) => match &self.msg {
                Some(m) => Err(m.clone()),
                None => Err(x.to_string()),
            },
        }
    }
}

/// Converts back through the raw type's `From` of the domain type.
pub struct FromFormat;

impl<CR: From<FDT>, FDT> UnparseFn<CR, FDT> for FromFormat {
    open spec fn unparse_requires(&self, value: FDT) -> bool {
        true
    }

    open spec fn unparse_ensures(&self, value: FDT, r: CR) -> bool {
        call_ensures(CR::from, (value,), r)
    }

    fn unparse(&self, value: FDT) -> (r: CR) {
        CR::from(value)
    }
}

/// Round trip of a textual pipeline: when a raw text parses to `v`, the text
/// that `v` formats to parses to `v` again, trimmed or not.
pub proof fn lemma_text_round_trip<T: TextValue>(
    p: TextParse,
    raw: String,
    v: T,
    text: String,
    again: Result<T, String>,
)
    requires
        ParseFn::<String, T>::parse_ensures(&p, raw, Ok(v)),
        UnparseFn::<String, T>::unparse_ensures(&TextFormat, v, text),
        ParseFn::<String, T>::parse_ensures(&p, text, again),
    ensures
        again is Ok,
        again->Ok_0@ == v@,
{
    T::lemma_text_round_trip(v@);
    if p.trim {
        T::lemma_trimmed_text_round_trip(raw@, v@);
    }
}

/// The same parse outcome: the same value, or failures with the same text.
pub open spec fn same_outcome<T: View>(a: Result<T, String>, b: Result<T, String>) -> bool {
    match (a, b) {
        (Ok(x), Ok(y)) => x@ == y@,
        (Err(x), Err(y)) => x@ == y@,
        _ => false,
    }
}

/// A trimming textual pipeline gives the same outcome whatever whitespace
/// stands around the raw text.
pub proof fn lemma_trimmed_parse_ignores_padding<T: TextValue>(
    p: TextParse,
    raw: String,
    padded: String,
    r1: Result<T, String>,
    r2: Result<T, String>,
)
    requires
        p.trim,
        exists|front: Seq<char>, back: Seq<char>|
            all_white(front) && all_white(back) && padded@ == front + raw@ + back,
        ParseFn::<String, T>::parse_ensures(&p, raw, r1),
        ParseFn::<String, T>::parse_ensures(&p, padded, r2),
    ensures
        same_outcome(r1, r2),
{
    let (front, back) = choose|front: Seq<char>, back: Seq<char>|
        all_white(front) && all_white(back) && padded@ == front + raw@ + back;
    crate::text::lemma_trimmed_ignores_padding(front, raw@, back);
}

/// The defaulting pipeline never fails: a text that does not parse becomes
/// the default value.
pub proof fn lemma_default_parse_never_fails<T: TextValue>(
    p: DefaultParse,
    raw: String,
    r: Result<T, String>,
)
    requires
        ParseFn::<String, T>::parse_ensures(&p, raw, r),
    ensures
        r is Ok,
        text_outcome::<T>(p.trim, raw@) is None ==> r->Ok_0@ == T::default_spec(),
{
}

/// The optional pipeline never fails: a text that does not parse becomes
/// `None`.
pub proof fn lemma_optional_parse_never_fails<T: TextValue>(
    p: OptionalParse,
    raw: String,
    r: Result<Option<T>, String>,
)
    requires
        ParseFn::<String, Option<T>>::parse_ensures(&p, raw, r),
    ensures
        r is Ok,
        text_outcome::<T>(p.trim, raw@) is None ==> r->Ok_0 is None,
{
}

} // verus!
