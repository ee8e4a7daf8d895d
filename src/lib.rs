//! Declarative, field-by-field form definitions: a builder protocol that
//! refuses incomplete fields, conversion pipelines between a control's raw
//! value and the record's domain value, and an ordered validation aggregator.
pub mod controls;
pub mod convert;
pub mod form;
pub mod state;
pub mod text;
pub mod text_input;
