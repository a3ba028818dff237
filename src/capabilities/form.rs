use vstd::prelude::*;

verus! {

/// How a form field is rendered.
#[derive(Debug, Clone, Default)]
pub enum FieldType {
    #[default]
    Text,
    Password,
    /// A choice among the given options.
    Select(Vec<String>),
    /// Read-only markdown text.
    MarkdownInfo,
}

/// One input of a form.
#[derive(Debug, Clone, Default)]
pub struct Field {
    pub id: String,
    pub label: String,
    pub field_type: FieldType,
    pub placeholder: Option<String>,
    pub regex: Option<String>,
    pub help: Option<String>,
    pub value: Option<String>,
}

/// A form that the host renders on a provider's behalf.
#[derive(Debug, Clone)]
pub struct FormSchema {
    pub title: String,
    pub description: Option<String>,
    pub fields: Vec<Field>,
}

/// The value the user entered for one field.
#[derive(Debug, Clone)]
pub struct FormResponse {
    pub id: String,
    pub value: String,
}

} // verus!
