//! Field builders and the descriptors they finalize into.
use crate::convert::{
    DefaultParse, FromFormat, FromParse, OptionalFormat, OptionalParse, ParseFn, TextFormat,
    TextParse, UnparseFn,
};
use crate::state::{ControlBuildError, ValidationState};
use crate::text::TextValue;
use vstd::prelude::*;

verus! {

/// A function that configures a builder.
pub trait BuilderFn<B>: Fn(B) -> B {

}

/// A function that configures a builder with the form's context at hand.
pub trait BuilderCxFn<B, CX>: Fn(B, &CX) -> B {

}

/// A callback that reports whether a rendered control currently holds a valid value.
pub trait ValidationCb: Fn() -> bool {

}

/// A renderer for one control kind: from style and render data to a view.
pub trait RenderFn<FS, RD, VW>: FnOnce(&FS, RD) -> VW {

}

impl<B, T: Fn(B) -> B> BuilderFn<B> for T {

}

impl<B, CX, T: Fn(B, &CX) -> B> BuilderCxFn<B, CX> for T {

}

impl<T: Fn() -> bool> ValidationCb for T {

}

impl<FS, RD, VW, T: FnOnce(&FS, RD) -> VW> RenderFn<FS, RD, VW> for T {

}

/// Extraction: reads a field's domain value out of the record.
pub trait FieldGetter<FD, FDT> {
    spec fn get_requires(&self, fd: FD) -> bool;

    spec fn get_ensures(&self, fd: FD, r: FDT) -> bool;

    fn get(&self, fd: &FD) -> (r: FDT)
        requires
            self.get_requires(*fd),
        ensures
            self.get_ensures(*fd, r),
    ;
}

/// Injection: writes a field's domain value into the record.
pub trait FieldSetter<FD, FDT> {
    spec fn set_requires(&self, fd: FD, value: FDT) -> bool;

    spec fn set_ensures(&self, fd: FD, value: FDT, r: FD) -> bool;

    fn set(&self, fd: FD, value: FDT) -> (r: FD)
        requires
            self.set_requires(fd, value),
        ensures
            self.set_ensures(fd, value, r),
    ;
}

/// A validation predicate over the whole record.
pub trait ValidationFn<FD> {
    spec fn validate_requires(&self, fd: FD) -> bool;

    spec fn validate_ensures(&self, fd: FD, r: Result<(), String>) -> bool;

    fn validate(&self, fd: &FD) -> (r: Result<(), String>)
        requires
            self.validate_requires(*fd),
        ensures
            self.validate_ensures(*fd, r),
    ;
}

/// A visibility predicate over the record and the form's context.
pub trait ShowWhenFn<FD, CX> {
    spec fn show_requires(&self, fd: FD, cx: CX) -> bool;

    spec fn show_ensures(&self, fd: FD, cx: CX, r: bool) -> bool;

    fn show(&self, fd: &FD, cx: &CX) -> (r: bool)
        requires
            self.show_requires(*fd, *cx),
        ensures
            self.show_ensures(*fd, *cx, r),
    ;
}

impl<FD, FDT, F: Fn(&FD) -> FDT> FieldGetter<FD, FDT> for F {
    open spec fn get_requires(&self, fd: FD) -> bool {
        call_requires(*self, (&fd,))
    }

    open spec fn get_ensures(&self, fd: FD, r: FDT) -> bool {
        call_ensures(*self, (&fd,), r)
    }

    fn get(&self, fd: &FD) -> (r: FDT) {
        (self)(fd)
    }
}

impl<FD, FDT, F: Fn(FD, FDT) -> FD> FieldSetter<FD, FDT> for F {
    open spec fn set_requires(&self, fd: FD, value: FDT) -> bool {
        call_requires(*self, (fd, value))
    }

    open spec fn set_ensures(&self, fd: FD, value: FDT, r: FD) -> bool {
        call_ensures(*self, (fd, value), r)
    }

    fn set(&self, fd: FD, value: FDT) -> (r: FD) {
        (self)(fd, value)
    }
}

impl<FD, F: Fn(&FD) -> Result<(), String>> ValidationFn<FD> for F {
    open spec fn validate_requires(&self, fd: FD) -> bool {
        call_requires(*self, (&fd,))
    }

    open spec fn validate_ensures(&self, fd: FD, r: Result<(), String>) -> bool {
        call_ensures(*self, (&fd,), r)
    }

    fn validate(&self, fd: &FD) -> (r: Result<(), String>) {
        (self)(fd)
    }
}

impl<FD, CX, F: Fn(&FD, &CX) -> bool> ShowWhenFn<FD, CX> for F {
    open spec fn show_requires(&self, fd: FD, cx: CX) -> bool {
        call_requires(*self, (&fd, &cx))
    }

    open spec fn show_ensures(&self, fd: FD, cx: CX, r: bool) -> bool {
        call_ensures(*self, (&fd, &cx), r)
    }

    fn show(&self, fd: &FD, cx: &CX) -> (r: bool) {
        (self)(fd, cx)
    }
}

/// For a closure, the getter's contract is the closure's own: call this to
/// use a concrete closure where a `FieldGetter` is expected.
pub proof fn lemma_fn_getter<FD, FDT, F: Fn(&FD) -> FDT>(f: F, fd: FD)
    ensures
        f.get_requires(fd) == call_requires(f, (&fd,)),
        forall|r: FDT| #[trigger] f.get_ensures(fd, r) == call_ensures(f, (&fd,), r),
{
}

/// For a closure, the setter's contract is the closure's own.
pub proof fn lemma_fn_setter<FD, FDT, F: Fn(FD, FDT) -> FD>(f: F, fd: FD, value: FDT)
    ensures
        f.set_requires(fd, value) == call_requires(f, (fd, value)),
        forall|r: FD| #[trigger] f.set_ensures(fd, value, r) == call_ensures(f, (fd, value), r),
{
}

/// For a closure, the validation predicate's contract is the closure's own.
pub proof fn lemma_fn_validation<FD, F: Fn(&FD) -> Result<(), String>>(f: F, fd: FD)
    ensures
        f.validate_requires(fd) == call_requires(f, (&fd,)),
        forall|r: Result<(), String>| #[trigger]
            f.validate_ensures(fd, r) == call_ensures(f, (&fd,), r),
{
}

/// For a closure, the visibility predicate's contract is the closure's own.
pub proof fn lemma_fn_show_when<FD, CX, F: Fn(&FD, &CX) -> bool>(f: F, fd: FD, cx: CX)
    ensures
        f.show_requires(fd, cx) == call_requires(f, (&fd, &cx)),
        forall|r: bool| #[trigger] f.show_ensures(fd, cx, r) == call_ensures(f, (&fd, &cx), r),
{
}

/// The placeholder for a builder component that has not been given.
#[derive(Clone, Copy, Debug, PartialEq, Eq, Structural)]
pub struct Unset;

impl<FD> ValidationFn<FD> for Unset {
    open spec fn validate_requires(&self, fd: FD) -> bool {
        true
    }

    open spec fn validate_ensures(&self, fd: FD, r: Result<(), String>) -> bool {
        r is Ok
    }

    fn validate(&self, fd: &FD) -> (r: Result<(), String>) {
        Ok(())
    }
}

impl<FD, CX> ShowWhenFn<FD, CX> for Unset {
    open spec fn show_requires(&self, fd: FD, cx: CX) -> bool {
        true
    }

    open spec fn show_ensures(&self, fd: FD, cx: CX, r: bool) -> bool {
        r
    }

    fn show(&self, fd: &FD, cx: &CX) -> (r: bool) {
        true
    }
}

/// A kind of interactive control; `ReturnType` is the raw value it exchanges.
pub trait ControlData {
    type ReturnType;
}

/// An interactive control kind whose fields may carry a validation predicate.
pub trait ValidatedControlData: ControlData {

}

/// A kind of display-only control.
pub trait VanityControlData {

}

/// A display-only control kind that may show a value read from the record.
pub trait GetterVanityControlData: VanityControlData {

}

/// The data needed to render a control of kind `C` with styles `A`.
#[derive(Clone)]
pub struct ControlRenderData<A, C> {
    pub styles: Vec<A>,
    pub data: C,
}

/// A builder for an interactive control: components given so far, each
/// `Unset` until a configuration call supplies it.
///
/// `C` is the control kind's data and `A` its styling attribute; `G`, `S`,
/// `P`, `U`, `V` and `W` are the getter, setter, parse and unparse
/// functions, validation predicate and visibility predicate.
pub struct ControlBuilder<C, A, G, S, P, U, V, W> {
    pub getter: Option<G>,
    pub setter: Option<S>,
    pub parse_fn: Option<P>,
    pub unparse_fn: Option<U>,
    pub validation_fn: Option<V>,
    pub style_attributes: Vec<A>,
    pub show_when: Option<W>,
    pub data: C,
}

/// A fully specified interactive control.
pub struct BuiltControlData<C, A, G, S, P, U, V, W> {
    pub render_data: ControlRenderData<A, C>,
    pub getter: G,
    pub setter: S,
    pub parse_fn: P,
    pub unparse_fn: U,
    pub validation_fn: Option<V>,
    pub show_when: Option<W>,
}

/// The first missing required component, in the order getter, setter,
/// parse, unparse.
pub open spec fn first_missing(
    has_getter: bool,
    has_setter: bool,
    has_parse: bool,
    has_unparse: bool,
) -> Option<ControlBuildError> {
    if !has_getter {
        Some(ControlBuildError::MissingGetter)
    } else if !has_setter {
        Some(ControlBuildError::MissingSetter)
    } else if !has_parse {
        Some(ControlBuildError::MissingParseFn)
    } else if !has_unparse {
        Some(ControlBuildError::MissingUnParseFn)
    } else {
        None
    }
}

impl<C, A> ControlBuilder<C, A, Unset, Unset, Unset, Unset, Unset, Unset> {
    /// Creates a builder for the given control data, with no component given.
    pub fn new(data: C) -> (r: Self)
        ensures
            r.getter is None,
            r.setter is None,
            r.parse_fn is None,
            r.unparse_fn is None,
            r.validation_fn is None,
            r.show_when is None,
            r.style_attributes@.len() == 0,
            r.data == data,
    {
        ControlBuilder {
            data,
            getter: None,
            setter: None,
            parse_fn: None,
            unparse_fn: None,
            validation_fn: None,
            style_attributes: Vec::new(),
            show_when: None,
        }
    }
}

impl<C, A, G, S, P, U, V, W> ControlBuilder<C, A, G, S, P, U, V, W> {
    pub open spec fn spec_missing(&self) -> Option<ControlBuildError> {
        first_missing(
            self.getter is Some,
            self.setter is Some,
            self.parse_fn is Some,
            self.unparse_fn is Some,
        )
    }

    /// Finalizes the builder. Fails with the first missing required
    /// component, checked in the order getter, setter, parse, unparse.
    pub fn build(self) -> (r: Result<BuiltControlData<C, A, G, S, P, U, V, W>, ControlBuildError>)
        ensures
            r is Err <==> self.spec_missing() is Some,
            r matches Err(e) ==> Some(e) == self.spec_missing(),
            r matches Ok(b) ==> {
                &&& Some(b.getter) == self.getter
                &&& Some(b.setter) == self.setter
                &&& Some(b.parse_fn) == self.parse_fn
                &&& Some(b.unparse_fn) == self.unparse_fn
                &&& b.validation_fn == self.validation_fn
                &&& b.show_when == self.show_when
                &&& b.render_data.styles == self.style_attributes
                &&& b.render_data.data == self.data
            },
    {
        let getter = match self.getter {
            Some(getter) => getter,
            None => return Err(ControlBuildError::MissingGetter),
        };
        let setter = match self.setter {
            Some(setter) => setter,
            None => return Err(ControlBuildError::MissingSetter),
        };
        let parse_fn = match self.parse_fn {
            Some(parse_fn) => parse_fn,
            None => return Err(ControlBuildError::MissingParseFn),
        };
        let unparse_fn = match self.unparse_fn {
            Some(unparse_fn) => unparse_fn,
            None => return Err(ControlBuildError::MissingUnParseFn),
        };
        Ok(
            BuiltControlData {
                render_data: ControlRenderData { data: self.data, styles: self.style_attributes },
                getter,
                setter,
                parse_fn,
                unparse_fn,
                validation_fn: self.validation_fn,
                show_when: self.show_when,
            },
        )
    }

    /// Sets the function that decides when the control is shown.
    /// Validations of controls that are not shown do not run.
    pub fn show_when<NewW>(self, when: NewW) -> (r: ControlBuilder<C, A, G, S, P, U, V, NewW>)
        ensures
            r.show_when == Some(when),
            r.getter == self.getter,
            r.setter == self.setter,
            r.parse_fn == self.parse_fn,
            r.unparse_fn == self.unparse_fn,
            r.validation_fn == self.validation_fn,
            r.style_attributes == self.style_attributes,
            r.data == self.data,
    {
        ControlBuilder {
            getter: self.getter,
            setter: self.setter,
            parse_fn: self.parse_fn,
            unparse_fn: self.unparse_fn,
            validation_fn: self.validation_fn,
            style_attributes: self.style_attributes,
            show_when: Some(when),
            data: self.data,
        }
    }

    /// Sets the getter function, which reads the field from the record.
    pub fn getter<NewG>(self, getter: NewG) -> (r: ControlBuilder<C, A, NewG, S, P, U, V, W>)
        ensures
            r.getter == Some(getter),
            r.setter == self.setter,
            r.parse_fn == self.parse_fn,
            r.unparse_fn == self.unparse_fn,
            r.validation_fn == self.validation_fn,
            r.show_when == self.show_when,
            r.style_attributes == self.style_attributes,
            r.data == self.data,
    {
        ControlBuilder {
            getter: Some(getter),
            setter: self.setter,
            parse_fn: self.parse_fn,
            unparse_fn: self.unparse_fn,
            validation_fn: self.validation_fn,
            style_attributes: self.style_attributes,
            show_when: self.show_when,
            data: self.data,
        }
    }

    /// Sets the setter function, which writes the field into the record.
    pub fn setter<NewS>(self, setter: NewS) -> (r: ControlBuilder<C, A, G, NewS, P, U, V, W>)
        ensures
            r.setter == Some(setter),
            r.getter == self.getter,
            r.parse_fn == self.parse_fn,
            r.unparse_fn == self.unparse_fn,
            r.validation_fn == self.validation_fn,
            r.show_when == self.show_when,
            r.style_attributes == self.style_attributes,
            r.data == self.data,
    {
        ControlBuilder {
            getter: self.getter,
            setter: Some(setter),
            parse_fn: self.parse_fn,
            unparse_fn: self.unparse_fn,
            validation_fn: self.validation_fn,
            style_attributes: self.style_attributes,
            show_when: self.show_when,
            data: self.data,
        }
    }

    /// Sets the parse and unparse functions as a pair, replacing any pair
    /// given before.
    pub fn parse_custom<NewP, NewU>(self, parse_fn: NewP, unparse_fn: NewU) -> (r: ControlBuilder<
        C,
        A,
        G,
        S,
        NewP,
        NewU,
        V,
        W,
    >)
        ensures
            r.parse_fn == Some(parse_fn),
            r.unparse_fn == Some(unparse_fn),
            r.getter == self.getter,
            r.setter == self.setter,
            r.validation_fn == self.validation_fn,
            r.show_when == self.show_when,
            r.style_attributes == self.style_attributes,
            r.data == self.data,
    {
        ControlBuilder {
            getter: self.getter,
            setter: self.setter,
            parse_fn: Some(parse_fn),
            unparse_fn: Some(unparse_fn),
            validation_fn: self.validation_fn,
            style_attributes: self.style_attributes,
            show_when: self.show_when,
            data: self.data,
        }
    }

    /// Adds a styling attribute to this control.
    pub fn style(self, attribute: A) -> (r: Self)
        ensures
            r.style_attributes@ == self.style_attributes@.push(attribute),
            r.getter == self.getter,
            r.setter == self.setter,
            r.parse_fn == self.parse_fn,
            r.unparse_fn == self.unparse_fn,
            r.validation_fn == self.validation_fn,
            r.show_when == self.show_when,
            r.data == self.data,
    {
        let mut b = self;
        b.style_attributes.push(attribute);
        b
    }

    /// Converts through `TryFrom` and back through `From`, failing with the
    /// conversion error's text.
    pub fn parse_from(self) -> (r: ControlBuilder<C, A, G, S, FromParse, FromFormat, V, W>)
        ensures
            r.parse_fn matches Some(p) && p.msg is None,
            r.unparse_fn is Some,
            r.getter == self.getter,
            r.setter == self.setter,
            r.validation_fn == self.validation_fn,
            r.show_when == self.show_when,
            r.style_attributes == self.style_attributes,
            r.data == self.data,
    {
        self.parse_custom(FromParse { msg: None }, FromFormat)
    }

    /// Converts through `TryFrom` and back through `From`, failing with `msg`.
    pub fn parse_from_msg(self, msg: &str) -> (r: ControlBuilder<
        C,
        A,
        G,
        S,
        FromParse,
        FromFormat,
        V,
        W,
    >)
        ensures
            r.parse_fn matches Some(p) && p.msg is Some && p.msg->Some_0@ == msg@,
            r.unparse_fn is Some,
            r.getter == self.getter,
            r.setter == self.setter,
            r.validation_fn == self.validation_fn,
            r.show_when == self.show_when,
            r.style_attributes == self.style_attributes,
            r.data == self.data,
    {
        self.parse_custom(FromParse { msg: Some(msg.to_owned()) }, FromFormat)
    }

    /// Parses and formats with the domain type's textual pair.
    pub fn parse_string(self) -> (r: ControlBuilder<C, A, G, S, TextParse, TextFormat, V, W>)
        ensures
            r.parse_fn matches Some(p) && !p.trim && p.msg is None,
            r.unparse_fn is Some,
            r.getter == self.getter,
            r.setter == self.setter,
            r.validation_fn == self.validation_fn,
            r.show_when == self.show_when,
            r.style_attributes == self.style_attributes,
            r.data == self.data,
    {
        self.parse_custom(TextParse { trim: false, msg: None }, TextFormat)
    }

    /// Like `parse_string`, trimming the text before parsing.
    pub fn parse_trimmed(self) -> (r: ControlBuilder<C, A, G, S, TextParse, TextFormat, V, W>)
        ensures
            r.parse_fn matches Some(p) && p.trim && p.msg is None,
            r.unparse_fn is Some,
            r.getter == self.getter,
            r.setter == self.setter,
            r.validation_fn == self.validation_fn,
            r.show_when == self.show_when,
            r.style_attributes == self.style_attributes,
            r.data == self.data,
    {
        self.parse_custom(TextParse { trim: true, msg: None }, TextFormat)
    }

    /// Like `parse_string`, failing with `msg`.
    pub fn parse_string_msg(self, msg: &str) -> (r: ControlBuilder<
        C,
        A,
        G,
        S,
        TextParse,
        TextFormat,
        V,
        W,
    >)
        ensures
            r.parse_fn matches Some(p) && !p.trim && p.msg is Some && p.msg->Some_0@ == msg@,
            r.unparse_fn is Some,
            r.getter == self.getter,
            r.setter == self.setter,
            r.validation_fn == self.validation_fn,
            r.show_when == self.show_when,
            r.style_attributes == self.style_attributes,
            r.data == self.data,
    {
        self.parse_custom(TextParse { trim: false, msg: Some(msg.to_owned()) }, TextFormat)
    }

    /// Like `parse_trimmed`, failing with `msg`.
    pub fn parse_trimmed_msg(self, msg: &str) -> (r: ControlBuilder<
        C,
        A,
        G,
        S,
        TextParse,
        TextFormat,
        V,
        W,
    >)
        ensures
            r.parse_fn matches Some(p) && p.trim && p.msg is Some && p.msg->Some_0@ == msg@,
            r.unparse_fn is Some,
            r.getter == self.getter,
            r.setter == self.setter,
            r.validation_fn == self.validation_fn,
            r.show_when == self.show_when,
            r.style_attributes == self.style_attributes,
            r.data == self.data,
    {
        self.parse_custom(TextParse { trim: true, msg: Some(msg.to_owned()) }, TextFormat)
    }

    /// Parses into an optional value: `None` where the text does not parse,
    /// and an absent value formats as the empty text.
    pub fn parse_optional(self) -> (r: ControlBuilder<
        C,
        A,
        G,
        S,
        OptionalParse,
        OptionalFormat,
        V,
        W,
    >)
        ensures
            r.parse_fn matches Some(p) && !p.trim,
            r.unparse_fn is Some,
            r.getter == self.getter,
            r.setter == self.setter,
            r.validation_fn == self.validation_fn,
            r.show_when == self.show_when,
            r.style_attributes == self.style_attributes,
            r.data == self.data,
    {
        self.parse_custom(OptionalParse { trim: false }, OptionalFormat)
    }

    /// Like `parse_optional`, trimming the text before parsing.
    pub fn parse_optional_trimmed(self) -> (r: ControlBuilder<
        C,
        A,
        G,
        S,
        OptionalParse,
        OptionalFormat,
        V,
        W,
    >)
        ensures
            r.parse_fn matches Some(p) && p.trim,
            r.unparse_fn is Some,
            r.getter == self.getter,
            r.setter == self.setter,
            r.validation_fn == self.validation_fn,
            r.show_when == self.show_when,
            r.style_attributes == self.style_attributes,
            r.data == self.data,
    {
        self.parse_custom(OptionalParse { trim: true }, OptionalFormat)
    }

    /// Parses with the textual pair, taking the default value where the
    /// text does not parse.
    pub fn parse_or_default(self) -> (r: ControlBuilder<
        C,
        A,
        G,
        S,
        DefaultParse,
        TextFormat,
        V,
        W,
    >)
        ensures
            r.parse_fn matches Some(p) && !p.trim,
            r.unparse_fn is Some,
            r.getter == self.getter,
            r.setter == self.setter,
            r.validation_fn == self.validation_fn,
            r.show_when == self.show_when,
            r.style_attributes == self.style_attributes,
            r.data == self.data,
    {
        self.parse_custom(DefaultParse { trim: false }, TextFormat)
    }

    /// Like `parse_or_default`, trimming the text before parsing.
    pub fn parse_trimmed_or_default(self) -> (r: ControlBuilder<
        C,
        A,
        G,
        S,
        DefaultParse,
        TextFormat,
        V,
        W,
    >)
        ensures
            r.parse_fn matches Some(p) && p.trim,
            r.unparse_fn is Some,
            r.getter == self.getter,
            r.setter == self.setter,
            r.validation_fn == self.validation_fn,
            r.show_when == self.show_when,
            r.style_attributes == self.style_attributes,
            r.data == self.data,
    {
        self.parse_custom(DefaultParse { trim: true }, TextFormat)
    }
}

impl<C: ValidatedControlData, A, G, S, P, U, V, W> ControlBuilder<C, A, G, S, P, U, V, W> {
    /// Sets the validation function, which sees the whole record.
    pub fn validation_fn<NewV>(self, validation_fn: NewV) -> (r: ControlBuilder<
        C,
        A,
        G,
        S,
        P,
        U,
        NewV,
        W,
    >)
        ensures
            r.validation_fn == Some(validation_fn),
            r.getter == self.getter,
            r.setter == self.setter,
            r.parse_fn == self.parse_fn,
            r.unparse_fn == self.unparse_fn,
            r.show_when == self.show_when,
            r.style_attributes == self.style_attributes,
            r.data == self.data,
    {
        ControlBuilder {
            getter: self.getter,
            setter: self.setter,
            parse_fn: self.parse_fn,
            unparse_fn: self.unparse_fn,
            validation_fn: Some(validation_fn),
            style_attributes: self.style_attributes,
            show_when: self.show_when,
            data: self.data,
        }
    }
}

/// Completeness of finalization: a builder missing one required component
/// is refused with that component's error, and one missing several with the
/// first of them in the order getter, setter, parse, unparse; one missing
/// none is accepted.
pub proof fn lemma_build_reports_first_missing<C, A, G, S, P, U, V, W>(
    b: ControlBuilder<C, A, G, S, P, U, V, W>,
)
    ensures
        b.getter is None ==> b.spec_missing() == Some(ControlBuildError::MissingGetter),
        b.getter is Some && b.setter is None ==> b.spec_missing() == Some(
            ControlBuildError::MissingSetter,
        ),
        b.getter is Some && b.setter is Some && b.parse_fn is None ==> b.spec_missing() == Some(
            ControlBuildError::MissingParseFn,
        ),
        b.getter is Some && b.setter is Some && b.parse_fn is Some && b.unparse_fn is None
            ==> b.spec_missing() == Some(ControlBuildError::MissingUnParseFn),
        b.getter is Some && b.setter is Some && b.parse_fn is Some && b.unparse_fn is Some
            ==> b.spec_missing() is None,
{
}

/// A defaulting field never reports a parse error: whatever raw text is
/// entered, the resulting state is not `ParseError`.
pub proof fn lemma_default_input_never_parse_error<FD, T: TextValue, C, A, G, S, U, V, W>(
    control: BuiltControlData<C, A, G, S, DefaultParse, U, V, W>,
    fd: FD,
    raw: String,
    nfd: FD,
    state: ValidationState,
) where S: FieldSetter<FD, T>, V: ValidationFn<FD>
    requires
        control.input_ensures::<FD, String, T>(fd, raw, nfd, state),
    ensures
        !(state is ParseError),
{
}

/// An optional field never reports a parse error: whatever raw text is
/// entered, the resulting state is not `ParseError`.
pub proof fn lemma_optional_input_never_parse_error<FD, T: TextValue, C, A, G, S, U, V, W>(
    control: BuiltControlData<C, A, G, S, OptionalParse, U, V, W>,
    fd: FD,
    raw: String,
    nfd: FD,
    state: ValidationState,
) where S: FieldSetter<FD, Option<T>>, V: ValidationFn<FD>
    requires
        control.input_ensures::<FD, String, Option<T>>(fd, raw, nfd, state),
    ensures
        !(state is ParseError),
{
}

impl<C, A, G, S, P, U, V, W> BuiltControlData<C, A, G, S, P, U, V, W> {
    /// The visibility predicate may be asked about `fd` in context `cx`.
    pub open spec fn show_ready<FD, CX>(&self, fd: FD, cx: CX) -> bool where W: ShowWhenFn<FD, CX> {
        self.show_when matches Some(w) ==> w.show_requires(fd, cx)
    }

    /// `shown` is a possible answer of the visibility predicate; a control
    /// without one is always shown.
    pub open spec fn may_show<FD, CX>(&self, fd: FD, cx: CX, shown: bool) -> bool where
        W: ShowWhenFn<FD, CX>,
     {
        match self.show_when {
            Some(w) => w.show_ensures(fd, cx, shown),
            None => shown,
        }
    }

    /// Whether the control is shown for the record `fd`.
    pub fn is_shown<FD, CX>(&self, fd: &FD, cx: &CX) -> (r: bool) where W: ShowWhenFn<FD, CX>
        requires
            self.show_ready(*fd, *cx),
        ensures
            self.may_show(*fd, *cx, r),
    {
        match &self.show_when {
            Some(w) => w.show(fd, cx),
            None => true,
        }
    }

    /// What the field's check may return: success where the control is
    /// hidden or has no validation predicate, else what the predicate says.
    pub open spec fn check_ensures<FD, CX>(&self, fd: FD, cx: CX, r: Result<(), String>) -> bool where
        V: ValidationFn<FD>,
        W: ShowWhenFn<FD, CX>,
     {
        ||| self.may_show(fd, cx, false) && r is Ok
        ||| self.may_show(fd, cx, true) && match self.validation_fn {
            Some(v) => v.validate_ensures(fd, r),
            None => r is Ok,
        }
    }

    pub open spec fn check_requires<FD, CX>(&self, fd: FD, cx: CX) -> bool where
        V: ValidationFn<FD>,
        W: ShowWhenFn<FD, CX>,
     {
        &&& self.show_ready(fd, cx)
        &&& self.validation_fn matches Some(v) ==> v.validate_requires(fd)
    }

    /// The field's entry in the form's validation: a hidden control is not
    /// validated at all.
    pub fn check<FD, CX>(&self, fd: &FD, cx: &CX) -> (r: Result<(), String>) where
        V: ValidationFn<FD>,
        W: ShowWhenFn<FD, CX>,
        requires
            self.check_requires(*fd, *cx),
        ensures
            self.check_ensures(*fd, *cx, r),
    {
        if !self.is_shown(fd, cx) {
            return Ok(());
        }
        match &self.validation_fn {
            Some(v) => v.validate(fd),
            None => Ok(()),
        }
    }

    /// The raw value that the control shows for the record `fd`.
    pub fn raw_value<FD, CR, FDT>(&self, fd: &FD) -> (r: CR) where
        G: FieldGetter<FD, FDT>,
        U: UnparseFn<CR, FDT>,
        requires
            self.getter.get_requires(*fd),
            forall|v: FDT| self.getter.get_ensures(*fd, v) ==> self.unparse_fn.unparse_requires(v),
        ensures
            exists|v: FDT| self.getter.get_ensures(*fd, v) && self.unparse_fn.unparse_ensures(v, r),
    {
        let v = self.getter.get(fd);
        self.unparse_fn.unparse(v)
    }

    /// Takes a raw value entered in the control: a value that does not
    /// parse leaves the record as it is and gives `ParseError`, without
    /// running the validation predicate; a value that parses is written
    /// into the record, which is then validated.
    pub fn apply_input<FD, CR, FDT>(&self, fd: FD, raw: CR) -> (r: (FD, ValidationState)) where
        S: FieldSetter<FD, FDT>,
        P: ParseFn<CR, FDT>,
        V: ValidationFn<FD>,
        requires
            self.parse_fn.parse_requires(raw),
            forall|v: FDT| self.setter.set_requires(fd, v),
            forall|v: FDT, nfd: FD|
                self.setter.set_ensures(fd, v, nfd) ==> (self.validation_fn matches Some(c)
                    ==> c.validate_requires(nfd)),
        ensures
            self.input_ensures(fd, raw, r.0, r.1),
    {
        let parsed = self.parse_fn.parse(raw);
        match parsed {
            Err(m) => {
                let r = (fd, ValidationState::ParseError(m));
                assert(self.parse_fn.parse_ensures(raw, Err(m)));
                r
            },
            Ok(v) => {
                let ghost fd0 = fd;
                let nfd = self.setter.set(fd, v);
                let state = match &self.validation_fn {
                    Some(c) => match c.validate(&nfd) {
                        Ok(()) => ValidationState::Passed,
                        Err(m) => ValidationState::ValidationError(m),
                    },
                    None => ValidationState::Passed,
                };
                assert(self.parse_fn.parse_ensures(raw, Ok(v)));
                assert(self.setter.set_ensures(fd0, v, nfd));
                (nfd, state)
            },
        }
    }

    /// What taking the raw value `raw` into `fd` may give.
    pub open spec fn input_ensures<FD, CR, FDT>(
        &self,
        fd: FD,
        raw: CR,
        nfd: FD,
        state: ValidationState,
    ) -> bool where S: FieldSetter<FD, FDT>, P: ParseFn<CR, FDT>, V: ValidationFn<FD> {
        ||| exists|m: String|
            self.parse_fn.parse_ensures(raw, Err(m)) && nfd == fd && state
                == ValidationState::ParseError(m)
        ||| exists|v: FDT|
            #![trigger self.setter.set_ensures(fd, v, nfd)]
            self.parse_fn.parse_ensures(raw, Ok(v)) && self.setter.set_ensures(fd, v, nfd)
                && match self.validation_fn {
                Some(c) => exists|res: Result<(), String>|
                    c.validate_ensures(nfd, res) && match state {
                        ValidationState::Passed => res is Ok,
                        ValidationState::ValidationError(m) => res == Err::<(), String>(m),
                        ValidationState::ParseError(_) => false,
                    },
                None => state is Passed,
            }
    }
}

/// The builder for a display-only control: nothing is required of it.
pub struct VanityControlBuilder<C, A, G, W> {
    pub style_attributes: Vec<A>,
    pub data: C,
    pub getter: Option<G>,
    pub show_when: Option<W>,
}

/// A finalized display-only control.
pub struct BuiltVanityControlData<C, A, G, W> {
    pub render_data: ControlRenderData<A, C>,
    pub getter: Option<G>,
    pub show_when: Option<W>,
}

impl<C, A> VanityControlBuilder<C, A, Unset, Unset> {
    /// Creates a builder for the given display-only control data.
    pub fn new(data: C) -> (r: Self)
        ensures
            r.data == data,
            r.style_attributes@.len() == 0,
            r.getter is None,
            r.show_when is None,
    {
        VanityControlBuilder { data, style_attributes: Vec::new(), getter: None, show_when: None }
    }
}

impl<C, A, G, W> VanityControlBuilder<C, A, G, W> {
    /// Finalizes the builder; this always succeeds.
    pub fn build(self) -> (r: BuiltVanityControlData<C, A, G, W>)
        ensures
            r.render_data.data == self.data,
            r.render_data.styles == self.style_attributes,
            r.getter == self.getter,
            r.show_when == self.show_when,
    {
        BuiltVanityControlData {
            render_data: ControlRenderData { data: self.data, styles: self.style_attributes },
            getter: self.getter,
            show_when: self.show_when,
        }
    }

    /// Sets the function that decides when the control is shown.
    pub fn show_when<NewW>(self, when: NewW) -> (r: VanityControlBuilder<C, A, G, NewW>)
        ensures
            r.show_when == Some(when),
            r.getter == self.getter,
            r.style_attributes == self.style_attributes,
            r.data == self.data,
    {
        VanityControlBuilder {
            style_attributes: self.style_attributes,
            data: self.data,
            getter: self.getter,
            show_when: Some(when),
        }
    }

    /// Adds a styling attribute to this control.
    pub fn style(self, attribute: A) -> (r: Self)
        ensures
            r.style_attributes@ == self.style_attributes@.push(attribute),
            r.getter == self.getter,
            r.show_when == self.show_when,
            r.data == self.data,
    {
        let mut b = self;
        b.style_attributes.push(attribute);
        b
    }
}

impl<C: GetterVanityControlData, A, G, W> VanityControlBuilder<C, A, G, W> {
    /// Sets the getter, which reads the text to display from the record.
    /// A display-only control does not need one.
    pub fn getter<NewG>(self, getter: NewG) -> (r: VanityControlBuilder<C, A, NewG, W>)
        ensures
            r.getter == Some(getter),
            r.show_when == self.show_when,
            r.style_attributes == self.style_attributes,
            r.data == self.data,
    {
        VanityControlBuilder {
            style_attributes: self.style_attributes,
            data: self.data,
            getter: Some(getter),
            show_when: self.show_when,
        }
    }
}

} // verus!
