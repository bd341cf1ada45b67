//! Messages one component hands another, each with a type name by which the
//! receiver recognises it.

use vstd::prelude::*;

use crate::projects::{PersistedEndpoint, Project};

verus! {

/// A message that names its own type.
pub trait ComponentMessage {
    /// The name of the message's type.
    fn get_message_type(&self) -> (t: String);
}

/// A request to confirm that an endpoint should be deleted.
#[derive(Debug, Clone, PartialEq, Eq)]
pub struct ConfirmDeleteEndpoint {
    pub endpoint: PersistedEndpoint,
    pub title: String,
    pub message: String,
}

/// A request to confirm that a project should be deleted.
#[derive(Debug, Clone, PartialEq, Eq)]
pub struct ConfirmDeleteProject {
    pub project: Project,
    pub title: String,
    pub message: String,
}

impl ComponentMessage for ConfirmDeleteEndpoint {
    fn get_message_type(&self) -> (t: String)
        ensures
            t@ == "confirm_delete_endpoint"@,
    {
        String::from_str("confirm_delete_endpoint")
    }
}

impl ComponentMessage for ConfirmDeleteProject {
    fn get_message_type(&self) -> (t: String)
        ensures
            t@ == "confirm_delete_project"@,
    {
        String::from_str("confirm_delete_project")
    }
}

/// Messages the application layout understands.
#[derive(Debug, Clone, Copy, PartialEq, Eq)]
pub enum AppLayoutMessages {
    OpenOptions,
    OpenDashboard,
}

/// Messages the endpoint-name window understands.
#[derive(Debug, Clone, PartialEq, Eq)]
pub enum EditEndpointNameMessages {
    ClearInput,
    InputValue(String),
}

/// Messages the project-name window understands.
#[derive(Debug, Clone, PartialEq, Eq)]
pub enum EditProjectNameMessages {
    ClearInput,
    InputValue(String),
}

/// Messages the endpoints selector understands.
#[derive(Debug, Clone, PartialEq, Eq)]
pub enum EndpointsSelectorMessages {
    EndpointsList(Vec<PersistedEndpoint>),
}

/// Messages between a text area and its owner: the owner learns of each
/// change, and can replace the whole input.
#[derive(Debug, Clone, PartialEq, Eq)]
pub enum TextAreaMessages {
    InputChange(String),
    SetInput(String),
}

/// The new value of a named text input.
#[derive(Debug, Clone, PartialEq, Eq)]
pub struct TextUpdate {
    pub id: String,
    pub value: String,
}

/// Messages a text input sends its owner.
#[derive(Debug, Clone, PartialEq, Eq)]
pub enum TextInputMessages {
    Change(String),
    Update(TextUpdate),
    Escape(TextUpdate),
}

} // verus!
