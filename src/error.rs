use vstd::prelude::*;

verus! {

/// The kind of record an error is about.
#[derive(Clone, Copy, Debug, PartialEq, Eq, Structural)]
pub enum Entity {
    User,
    Task,
}

/// The collaborator call (or the protocol step) that failed.
#[derive(Clone, Copy, Debug, PartialEq, Eq, Structural)]
pub enum Stage {
    CheckUser,
    ParentPath,
    CheckTask,
    InsertTask,
    FetchTask,
    UpdateTask,
    Publish,
    InsertUser,
}

/// A typed failure of a lifecycle operation.
#[derive(Clone, Debug)]
pub enum ServiceError {
    NotFound(Entity),
    Conflict(Entity),
    /// The status text that was not recognised.
    InvalidStatus(String),
    /// A collaborator failed; the text carries its cause.
    Internal(Stage, String),
    /// The event handed to a workflow does not answer its pending request.
    UnexpectedEvent,
}

impl ServiceError {
    /// The HTTP status code under which this failure is reported.
    pub open spec fn spec_http_status(&self) -> u16 {
        match self {
            ServiceError::NotFound(_) => 404,
            ServiceError::Conflict(Entity::User) => 302,
            ServiceError::Conflict(Entity::Task) => 409,
            ServiceError::InvalidStatus(_) => 400,
            ServiceError::Internal(_, _) => 500,
            ServiceError::UnexpectedEvent => 500,
        }
    }

    pub fn http_status(&self) -> (r: u16)
        ensures
            r == self.spec_http_status(),
    {
        match self {
            ServiceError::NotFound(_) => 404,
            ServiceError::Conflict(Entity::User) => 302,
            ServiceError::Conflict(Entity::Task) => 409,
            ServiceError::InvalidStatus(_) => 400,
            ServiceError::Internal(_, _) => 500,
            ServiceError::UnexpectedEvent => 500,
        }
    }
}

} // verus!
