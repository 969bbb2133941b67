//! Errors returned by operations on the store.

use vstd::prelude::*;
use vstd::string::*;

verus! {

/// A 128-bit identifier of a row, a sled or a zone.
pub type Uuid = u128;

/// The kinds of resource that an error or an authorization check can name.
#[derive(Clone, Copy, Debug, PartialEq, Eq, Hash, Structural)]
pub enum ResourceType {
    Database,
    Project,
    Vpc,
    VpcSubnet,
    VpcRouter,
    RouterRoute,
    VpcFirewallRule,
    NetworkInterface,
    Instance,
    Sled,
    Blueprint,
}

/// How a resource was looked up; reported when it is not found.
#[derive(Clone, Debug, PartialEq, Eq)]
pub enum LookupType {
    /// A name was requested.
    ByName(String),
    /// An id was requested.
    ById(Uuid),
    /// Several fields together were requested; the label describes them.
    ByCompositeId(String),
}

/// Mathematical value of a [`LookupType`].
pub enum LookupTypeView {
    ByName(Seq<char>),
    ById(Uuid),
    ByCompositeId(Seq<char>),
}

impl View for LookupType {
    type V = LookupTypeView;

    open spec fn view(&self) -> LookupTypeView {
        match self {
            LookupType::ByName(name) => LookupTypeView::ByName(name@),
            LookupType::ById(id) => LookupTypeView::ById(*id),
            LookupType::ByCompositeId(label) => LookupTypeView::ByCompositeId(label@),
        }
    }
}

impl LookupType {
    /// A copy of this lookup, equal to it field by field.
    pub fn duplicate(&self) -> (res: LookupType)
        ensures
            res == *self,
    {
        match self {
            LookupType::ByName(name) => LookupType::ByName(name.clone()),
            LookupType::ById(id) => LookupType::ById(*id),
            LookupType::ByCompositeId(label) => LookupType::ByCompositeId(label.clone()),
        }
    }
}

/// An error from an operation on the store.
#[derive(Clone, Debug, PartialEq, Eq)]
pub enum Error {
    /// The target row is absent or soft-deleted.
    ObjectNotFound { resource_type: ResourceType, lookup_type: LookupType },
    /// A live sibling already has this name.
    ObjectAlreadyExists { resource_type: ResourceType, object_name: String },
    /// A uniqueness rule other than the name rule was violated.
    Conflict { resource_type: ResourceType, object_name: String },
    /// A precondition of the operation does not hold.
    InvalidRequest { message: String },
    /// A value handed to the operation is not acceptable.
    InvalidValue { label: String, message: String },
    /// The caller is not known.
    Unauthenticated { internal_message: String },
    /// The caller may see the resource but not act on it.
    Forbidden,
    /// An invariant of the system was found broken.
    InternalError { internal_message: String },
    /// A transient failure; the caller may retry.
    ServiceUnavailable { internal_message: String },
    /// The system has run out of a resource.
    InsufficientCapacity { message: String, internal_message: String },
}

/// Mathematical value of an [`Error`].
pub enum ErrorView {
    ObjectNotFound { resource_type: ResourceType, lookup_type: LookupTypeView },
    ObjectAlreadyExists { resource_type: ResourceType, object_name: Seq<char> },
    Conflict { resource_type: ResourceType, object_name: Seq<char> },
    InvalidRequest { message: Seq<char> },
    InvalidValue { label: Seq<char>, message: Seq<char> },
    Unauthenticated { internal_message: Seq<char> },
    Forbidden,
    InternalError { internal_message: Seq<char> },
    ServiceUnavailable { internal_message: Seq<char> },
    InsufficientCapacity { message: Seq<char>, internal_message: Seq<char> },
}

impl View for Error {
    type V = ErrorView;

    open spec fn view(&self) -> ErrorView {
        match self {
            Error::ObjectNotFound { resource_type, lookup_type } => ErrorView::ObjectNotFound {
                resource_type: *resource_type,
                lookup_type: lookup_type@,
            },
            Error::ObjectAlreadyExists { resource_type, object_name } => {
                ErrorView::ObjectAlreadyExists { resource_type: *resource_type, object_name: object_name@ }
            },
            Error::Conflict { resource_type, object_name } => ErrorView::Conflict {
                resource_type: *resource_type,
                object_name: object_name@,
            },
            Error::InvalidRequest { message } => ErrorView::InvalidRequest { message: message@ },
            Error::InvalidValue { label, message } => ErrorView::InvalidValue {
                label: label@,
                message: message@,
            },
            Error::Unauthenticated { internal_message } => ErrorView::Unauthenticated {
                internal_message: internal_message@,
            },
            Error::Forbidden => ErrorView::Forbidden,
            Error::InternalError { internal_message } => ErrorView::InternalError {
                internal_message: internal_message@,
            },
            Error::ServiceUnavailable { internal_message } => ErrorView::ServiceUnavailable {
                internal_message: internal_message@,
            },
            Error::InsufficientCapacity { message, internal_message } => {
                ErrorView::InsufficientCapacity {
                    message: message@,
                    internal_message: internal_message@,
                }
            },
        }
    }
}

impl Error {
    /// A precondition failure with the given message.
    pub fn invalid_request(message: &str) -> (res: Error)
        ensures
            res@ == (ErrorView::InvalidRequest { message: message@ }),
    {
        Error::InvalidRequest { message: String::from_str(message) }
    }

    /// A value that is not acceptable: `label` names it, `message` says why.
    pub fn invalid_value(label: &str, message: &str) -> (res: Error)
        ensures
            res@ == (ErrorView::InvalidValue { label: label@, message: message@ }),
    {
        Error::InvalidValue { label: String::from_str(label), message: String::from_str(message) }
    }

    /// An internal error with the given message.
    pub fn internal_error(internal_message: &str) -> (res: Error)
        ensures
            res@ == (ErrorView::InternalError { internal_message: internal_message@ }),
    {
        Error::InternalError { internal_message: String::from_str(internal_message) }
    }

    /// A capacity failure: `message` is for the user, `internal_message` for
    /// the operator.
    pub fn insufficient_capacity(message: &str, internal_message: &str) -> (res: Error)
        ensures
            res@ == (ErrorView::InsufficientCapacity {
                message: message@,
                internal_message: internal_message@,
            }),
    {
        Error::InsufficientCapacity {
            message: String::from_str(message),
            internal_message: String::from_str(internal_message),
        }
    }

    /// The resource of the given type and id does not exist.
    pub fn not_found_by_id(resource_type: ResourceType, id: Uuid) -> (res: Error)
        ensures
            res@ == (ErrorView::ObjectNotFound { resource_type, lookup_type: LookupTypeView::ById(id) }),
    {
        Error::ObjectNotFound { resource_type, lookup_type: LookupType::ById(id) }
    }

    /// A live sibling of the given type already has the name.
    pub fn already_exists(resource_type: ResourceType, object_name: &str) -> (res: Error)
        ensures
            res@ == (ErrorView::ObjectAlreadyExists { resource_type, object_name: object_name@ }),
    {
        Error::ObjectAlreadyExists { resource_type, object_name: String::from_str(object_name) }
    }

    /// A uniqueness rule other than the name rule stands against the object.
    pub fn conflict(resource_type: ResourceType, object_name: &str) -> (res: Error)
        ensures
            res@ == (ErrorView::Conflict { resource_type, object_name: object_name@ }),
    {
        Error::Conflict { resource_type, object_name: String::from_str(object_name) }
    }

    /// The text of this error, as it is shown.
    pub fn message(&self) -> (res: String)
        ensures
            res@ == self.spec_message(),
    {
        match self {
            Error::ObjectNotFound { .. } => String::from_str("object not found"),
            Error::ObjectAlreadyExists { object_name, .. } => String::from_str(
                "already exists: ",
            ).concat(object_name.as_str()),
            Error::Conflict { object_name, .. } => String::from_str("conflict: ").concat(
                object_name.as_str(),
            ),
            Error::InvalidRequest { message } => message.clone(),
            Error::InvalidValue { message, .. } => message.clone(),
            Error::Unauthenticated { internal_message } => internal_message.clone(),
            Error::Forbidden => String::from_str("Forbidden"),
            Error::InternalError { internal_message } => internal_message.clone(),
            Error::ServiceUnavailable { internal_message } => internal_message.clone(),
            Error::InsufficientCapacity { message, .. } => message.clone(),
        }
    }

    pub open spec fn spec_message(&self) -> Seq<char> {
        match self {
            Error::ObjectNotFound { .. } => "object not found"@,
            Error::ObjectAlreadyExists { object_name, .. } => "already exists: "@ + object_name@,
            Error::Conflict { object_name, .. } => "conflict: "@ + object_name@,
            Error::InvalidRequest { message } => message@,
            Error::InvalidValue { message, .. } => message@,
            Error::Unauthenticated { internal_message } => internal_message@,
            Error::Forbidden => "Forbidden"@,
            Error::InternalError { internal_message } => internal_message@,
            Error::ServiceUnavailable { internal_message } => internal_message@,
            Error::InsufficientCapacity { message, .. } => message@,
        }
    }
}

} // verus!
