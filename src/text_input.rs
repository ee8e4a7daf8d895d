//! The text input control kind.
use crate::controls::{ControlBuilder, ControlData, ValidatedControlData};
use crate::state::UpdateEvent;
use vstd::prelude::*;

verus! {

/// Data used for the text input control.
#[derive(Debug, Clone, PartialEq, Eq, PartialOrd, Ord, Hash)]
pub struct TextInputData {
    pub name: String,
    pub label: Option<String>,
    pub placeholder: Option<String>,
    pub input_type: &'static str,
    pub update_event: UpdateEvent,
}

impl Default for TextInputData {
    fn default() -> (r: Self)
        ensures
            r.name@.len() == 0,
            r.label is None,
            r.placeholder is None,
            r.input_type@ == "input"@,
            r.update_event == UpdateEvent::OnChange,
    {
        TextInputData {
            name: String::new(),
            placeholder: None,
            label: None,
            input_type: "input",
            update_event: UpdateEvent::OnChange,
        }
    }
}

impl ControlData for TextInputData {
    type ReturnType = String;
}

impl ValidatedControlData for TextInputData {

}

impl<A, G, S, P, U, V, W> ControlBuilder<TextInputData, A, G, S, P, U, V, W> {
    /// Sets the name of the text input, the key that its value is sent with.
    pub fn named(self, control_name: &str) -> (r: Self)
        ensures
            r.data.name@ == control_name@,
            r.data.label == self.data.label,
            r.data.placeholder == self.data.placeholder,
            r.data.input_type == self.data.input_type,
            r.data.update_event == self.data.update_event,
            r.getter == self.getter,
            r.setter == self.setter,
            r.parse_fn == self.parse_fn,
            r.unparse_fn == self.unparse_fn,
            r.validation_fn == self.validation_fn,
            r.show_when == self.show_when,
            r.style_attributes == self.style_attributes,
    {
        let mut b = self;
        b.data.name = control_name.to_owned();
        b
    }

    /// Sets the label of the text input.
    pub fn labeled(self, label: &str) -> (r: Self)
        ensures
            r.data.label matches Some(l) && l@ == label@,
            r.data.name == self.data.name,
            r.data.placeholder == self.data.placeholder,
            r.data.input_type == self.data.input_type,
            r.data.update_event == self.data.update_event,
            r.getter == self.getter,
            r.setter == self.setter,
            r.parse_fn == self.parse_fn,
            r.unparse_fn == self.unparse_fn,
            r.validation_fn == self.validation_fn,
            r.show_when == self.show_when,
            r.style_attributes == self.style_attributes,
    {
        let mut b = self;
        b.data.label = Some(label.to_owned());
        b
    }

    /// Sets the placeholder of the text input.
    pub fn placeholder(self, placeholder: &str) -> (r: Self)
        ensures
            r.data.placeholder matches Some(p) && p@ == placeholder@,
            r.data.name == self.data.name,
            r.data.label == self.data.label,
            r.data.input_type == self.data.input_type,
            r.data.update_event == self.data.update_event,
            r.getter == self.getter,
            r.setter == self.setter,
            r.parse_fn == self.parse_fn,
            r.unparse_fn == self.unparse_fn,
            r.validation_fn == self.validation_fn,
            r.show_when == self.show_when,
            r.style_attributes == self.style_attributes,
    {
        let mut b = self;
        b.data.placeholder = Some(placeholder.to_owned());
        b
    }

    /// Makes the text input a password input.
    pub fn password(self) -> (r: Self)
        ensures
            r.data.input_type@ == "password"@,
            r.data.name == self.data.name,
            r.data.label == self.data.label,
            r.data.placeholder == self.data.placeholder,
            r.data.update_event == self.data.update_event,
            r.getter == self.getter,
            r.setter == self.setter,
            r.parse_fn == self.parse_fn,
            r.unparse_fn == self.unparse_fn,
            r.validation_fn == self.validation_fn,
            r.show_when == self.show_when,
            r.style_attributes == self.style_attributes,
    {
        self.input_type("password")
    }

    /// Makes the text input a date input.
    pub fn date(self) -> (r: Self)
        ensures
            r.data.input_type@ == "date"@,
            r.data.name == self.data.name,
            r.data.label == self.data.label,
            r.data.placeholder == self.data.placeholder,
            r.data.update_event == self.data.update_event,
            r.getter == self.getter,
            r.setter == self.setter,
            r.parse_fn == self.parse_fn,
            r.unparse_fn == self.unparse_fn,
            r.validation_fn == self.validation_fn,
            r.show_when == self.show_when,
            r.style_attributes == self.style_attributes,
    {
        self.input_type("date")
    }

    /// Sets the kind of the text input.
    pub fn input_type(self, input_type: &'static str) -> (r: Self)
        ensures
            r.data.input_type == input_type,
            r.data.name == self.data.name,
            r.data.label == self.data.label,
            r.data.placeholder == self.data.placeholder,
            r.data.update_event == self.data.update_event,
            r.getter == self.getter,
            r.setter == self.setter,
            r.parse_fn == self.parse_fn,
            r.unparse_fn == self.unparse_fn,
            r.validation_fn == self.validation_fn,
            r.show_when == self.show_when,
            r.style_attributes == self.style_attributes,
    {
        let mut b = self;
        b.data.input_type = input_type;
        b
    }

    /// Sets the event on which the control updates the record.
    pub fn update_on(self, event: UpdateEvent) -> (r: Self)
        ensures
            r.data.update_event == event,
            r.data.name == self.data.name,
            r.data.label == self.data.label,
            r.data.placeholder == self.data.placeholder,
            r.data.input_type == self.data.input_type,
            r.getter == self.getter,
            r.setter == self.setter,
            r.parse_fn == self.parse_fn,
            r.unparse_fn == self.unparse_fn,
            r.validation_fn == self.validation_fn,
            r.show_when == self.show_when,
            r.style_attributes == self.style_attributes,
    {
        let mut b = self;
        b.data.update_event = event;
        b
    }
}

} // verus!
