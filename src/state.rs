use vstd::prelude::*;

verus! {

/// The possible states for a validated control.
#[derive(Clone, Debug, PartialEq, Eq, PartialOrd, Ord, Hash)]
pub enum ValidationState {
    /// Parsing and validation passed. No errors.
    Passed,
    /// Error when parsing the field.
    ParseError(String),
    /// Error when validating the field.
    ValidationError(String),
}

impl ValidationState {
    /// The message carried by a failing state, if any.
    pub open spec fn spec_msg(&self) -> Option<String> {
        match self {
            ValidationState::Passed => None,
            ValidationState::ParseError(e) => Some(*e),
            ValidationState::ValidationError(e) => Some(*e),
        }
    }

    /// Gets the error message if there is a parse or validation error.
    pub fn msg(&self) -> (r: Option<&String>)
        ensures
            r matches Some(m) <==> self.spec_msg() is Some,
            r matches Some(m) ==> *m == self.spec_msg()->Some_0,
    {
        match self {
            ValidationState::Passed => None,
            ValidationState::ParseError(e) => Some(e),
            ValidationState::ValidationError(e) => Some(e),
        }
    }

    /// Takes the error message if there is a parse or validation error.
    pub fn take_msg(self) -> (r: Option<String>)
        ensures
            r == self.spec_msg(),
    {
        match self {
            ValidationState::Passed => None,
            ValidationState::ParseError(e) => Some(e),
            ValidationState::ValidationError(e) => Some(e),
        }
    }

    /// Returns true if self is `Passed`.
    pub fn is_passed(&self) -> (r: bool)
        ensures
            r <==> self is Passed,
    {
        matches!(self, ValidationState::Passed)
    }

    /// Returns true if self is either `ParseError` or `ValidationError`.
    pub fn is_err(&self) -> (r: bool)
        ensures
            r <==> !(self is Passed),
    {
        !self.is_passed()
    }

    /// Returns true if self is `ParseError`.
    pub fn is_parse_err(&self) -> (r: bool)
        ensures
            r <==> self is ParseError,
    {
        matches!(self, ValidationState::ParseError(_))
    }

    /// Returns true if self is `ValidationError`.
    pub fn is_validation_err(&self) -> (r: bool)
        ensures
            r <==> self is ValidationError,
    {
        matches!(self, ValidationState::ValidationError(_))
    }
}

impl Default for ValidationState {
    fn default() -> (r: Self)
        ensures
            r is Passed,
    {
        ValidationState::Passed
    }
}

/// The possibilities for when a control updates the form data.
#[derive(Copy, Clone, Debug, PartialEq, Eq, PartialOrd, Ord, Hash, Structural)]
pub enum UpdateEvent {
    OnFocusout,
    OnInput,
    OnChange,
}

impl Default for UpdateEvent {
    fn default() -> (r: Self)
        ensures
            r == UpdateEvent::OnChange,
    {
        UpdateEvent::OnChange
    }
}

/// The possibilities for errors when building a control.
#[derive(Debug, PartialEq, Eq, PartialOrd, Ord, Hash, Clone, Copy, Structural)]
pub enum ControlBuildError {
    /// The getter field was not specified.
    MissingGetter,
    /// The setter field was not specified.
    MissingSetter,
    /// The parse function was not specified.
    MissingParseFn,
    /// The unparse function was not specified.
    MissingUnParseFn,
}

impl ControlBuildError {
    /// The human-readable description of this error.
    pub open spec fn spec_message(self) -> Seq<char> {
        match self {
            ControlBuildError::MissingGetter => "missing getter function"@,
            ControlBuildError::MissingSetter => "missing setter function"@,
            ControlBuildError::MissingParseFn => "missing parse function"@,
            ControlBuildError::MissingUnParseFn => "missing unparse function"@,
        }
    }

    /// Describes this error in words.
    pub fn message(&self) -> (r: String)
        ensures
            r@ == self.spec_message(),
    {
        let message = match self {
            ControlBuildError::MissingGetter => "missing getter function",
            ControlBuildError::MissingSetter => "missing setter function",
            ControlBuildError::MissingParseFn => "missing parse function",
            ControlBuildError::MissingUnParseFn => "missing unparse function",
        };
        message.to_string()
    }
}

} // verus!
