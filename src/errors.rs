//! Failures of the remote calls and of translation, classified.
use vstd::prelude::*;
use vstd::string::StringExecFns;

verus! {

/// What the remote service reported when a call failed.
#[derive(Debug, Clone, Copy, PartialEq, Eq, Structural)]
pub enum ServiceErrorKind {
    ResourceNotFound,
    AccessDenied,
    Validation,
    InternalServer,
    Throttling,
    Unhandled,
}

/// The classes that every source distinguishes.
#[derive(Debug, Clone, Copy, PartialEq, Eq, Structural)]
pub enum ExceptionClass {
    ResourceNotFound,
    AccessDenied,
    Validation,
    Retryable,
    Unhandled,
}

/// Internal errors and throttling are retryable; every other kind keeps its class.
pub open spec fn retry_class(kind: ServiceErrorKind) -> ExceptionClass {
    match kind {
        ServiceErrorKind::ResourceNotFound => ExceptionClass::ResourceNotFound,
        ServiceErrorKind::AccessDenied => ExceptionClass::AccessDenied,
        ServiceErrorKind::Validation => ExceptionClass::Validation,
        ServiceErrorKind::InternalServer => ExceptionClass::Retryable,
        ServiceErrorKind::Throttling => ExceptionClass::Retryable,
        ServiceErrorKind::Unhandled => ExceptionClass::Unhandled,
    }
}

/// A failed call for policies.
#[derive(Debug)]
pub enum PolicyException {
    /// The policy or the policy store does not exist.
    ResourceNotFound(String),
    /// The caller may not make the call.
    AccessDenied(String),
    /// The request was malformed.
    Validation(String),
    /// An internal error or throttling; the only kind worth retrying.
    Retryable(String),
    /// Any other failure.
    Unhandled(String),
}

impl PolicyException {

    /// Classifies a failure the remote service reported: internal errors and
    /// throttling become `Retryable`, the other kinds keep their name.
    pub fn from_service(kind: ServiceErrorKind, message: String) -> (r: Self)
        ensures
            r.message() == message@,
            r.kind() == retry_class(kind),
    {
        match kind {
            ServiceErrorKind::ResourceNotFound => PolicyException::ResourceNotFound(message),
            ServiceErrorKind::AccessDenied => PolicyException::AccessDenied(message),
            ServiceErrorKind::Validation => PolicyException::Validation(message),
            ServiceErrorKind::InternalServer => PolicyException::Retryable(message),
            ServiceErrorKind::Throttling => PolicyException::Retryable(message),
            ServiceErrorKind::Unhandled => PolicyException::Unhandled(message),
        }
    }

    /// The class of this exception.
    pub open spec fn kind(&self) -> ExceptionClass {
        match self {
            PolicyException::ResourceNotFound(_) => ExceptionClass::ResourceNotFound,
            PolicyException::AccessDenied(_) => ExceptionClass::AccessDenied,
            PolicyException::Validation(_) => ExceptionClass::Validation,
            PolicyException::Retryable(_) => ExceptionClass::Retryable,
            PolicyException::Unhandled(_) => ExceptionClass::Unhandled,
        }
    }

    /// The description the service gave.
    pub open spec fn message(&self) -> Seq<char> {
        match self {
            PolicyException::ResourceNotFound(m) => m@,
            PolicyException::AccessDenied(m) => m@,
            PolicyException::Validation(m) => m@,
            PolicyException::Retryable(m) => m@,
            PolicyException::Unhandled(m) => m@,
        }
    }

    /// The call that failed is worth repeating.
    pub fn is_retryable(&self) -> (r: bool)
        ensures
            r == (self.kind() == ExceptionClass::Retryable),
    {
        match self {
            PolicyException::Retryable(_) => true,
            _ => false,
        }
    }

    /// The text shown for this exception.
    pub open spec fn text(&self) -> Seq<char> {
        match self {
            PolicyException::ResourceNotFound(m) => "Policy Id and/or Policy Store Id not found exception: "@ + m@,
            PolicyException::AccessDenied(m) => "Amazon Verified Permissions Access Denied exception: "@ + m@,
            PolicyException::Validation(m) => "Invalid input exception: "@ + m@,
            PolicyException::Retryable(m) => "Retryable Exception: "@ + m@,
            PolicyException::Unhandled(m) => "An unexpected error occurred: "@ + m@,
        }
    }

    /// The exception as text.
    pub fn to_string(&self) -> (r: String)
        ensures
            r@ == self.text(),
    {
        match self {
            PolicyException::ResourceNotFound(m) => {
                let mut s = String::from_str("Policy Id and/or Policy Store Id not found exception: ");
                s.append(m.as_str());
                s
            },
            PolicyException::AccessDenied(m) => {
                let mut s = String::from_str("Amazon Verified Permissions Access Denied exception: ");
                s.append(m.as_str());
                s
            },
            PolicyException::Validation(m) => {
                let mut s = String::from_str("Invalid input exception: ");
                s.append(m.as_str());
                s
            },
            PolicyException::Retryable(m) => {
                let mut s = String::from_str("Retryable Exception: ");
                s.append(m.as_str());
                s
            },
            PolicyException::Unhandled(m) => {
                let mut s = String::from_str("An unexpected error occurred: ");
                s.append(m.as_str());
                s
            },
        }
    }
}
/// A failed call for policy templates.
#[derive(Debug)]
pub enum TemplateException {
    /// The template or the policy store does not exist.
    ResourceNotFound(String),
    /// The caller may not make the call.
    AccessDenied(String),
    /// The request was malformed.
    Validation(String),
    /// An internal error or throttling; the only kind worth retrying.
    Retryable(String),
    /// Any other failure.
    Unhandled(String),
}

impl TemplateException {

    /// Classifies a failure the remote service reported: internal errors and
    /// throttling become `Retryable`, the other kinds keep their name.
    pub fn from_service(kind: ServiceErrorKind, message: String) -> (r: Self)
        ensures
            r.message() == message@,
            r.kind() == retry_class(kind),
    {
        match kind {
            ServiceErrorKind::ResourceNotFound => TemplateException::ResourceNotFound(message),
            ServiceErrorKind::AccessDenied => TemplateException::AccessDenied(message),
            ServiceErrorKind::Validation => TemplateException::Validation(message),
            ServiceErrorKind::InternalServer => TemplateException::Retryable(message),
            ServiceErrorKind::Throttling => TemplateException::Retryable(message),
            ServiceErrorKind::Unhandled => TemplateException::Unhandled(message),
        }
    }

    /// The class of this exception.
    pub open spec fn kind(&self) -> ExceptionClass {
        match self {
            TemplateException::ResourceNotFound(_) => ExceptionClass::ResourceNotFound,
            TemplateException::AccessDenied(_) => ExceptionClass::AccessDenied,
            TemplateException::Validation(_) => ExceptionClass::Validation,
            TemplateException::Retryable(_) => ExceptionClass::Retryable,
            TemplateException::Unhandled(_) => ExceptionClass::Unhandled,
        }
    }

    /// The description the service gave.
    pub open spec fn message(&self) -> Seq<char> {
        match self {
            TemplateException::ResourceNotFound(m) => m@,
            TemplateException::AccessDenied(m) => m@,
            TemplateException::Validation(m) => m@,
            TemplateException::Retryable(m) => m@,
            TemplateException::Unhandled(m) => m@,
        }
    }

    /// The call that failed is worth repeating.
    pub fn is_retryable(&self) -> (r: bool)
        ensures
            r == (self.kind() == ExceptionClass::Retryable),
    {
        match self {
            TemplateException::Retryable(_) => true,
            _ => false,
        }
    }

    /// The text shown for this exception.
    pub open spec fn text(&self) -> Seq<char> {
        match self {
            TemplateException::ResourceNotFound(m) => "Template Id not found exception: "@ + m@,
            TemplateException::AccessDenied(m) => "Amazon Verified Permissions Access Denied exception: "@ + m@,
            TemplateException::Validation(m) => "Invalid Input Exception: "@ + m@,
            TemplateException::Retryable(m) => "Retryable Exception: "@ + m@,
            TemplateException::Unhandled(m) => "Internal Exception, something uncaught occurred: "@ + m@,
        }
    }

    /// The exception as text.
    pub fn to_string(&self) -> (r: String)
        ensures
            r@ == self.text(),
    {
        match self {
            TemplateException::ResourceNotFound(m) => {
                let mut s = String::from_str("Template Id not found exception: ");
                s.append(m.as_str());
                s
            },
            TemplateException::AccessDenied(m) => {
                let mut s = String::from_str("Amazon Verified Permissions Access Denied exception: ");
                s.append(m.as_str());
                s
            },
            TemplateException::Validation(m) => {
                let mut s = String::from_str("Invalid Input Exception: ");
                s.append(m.as_str());
                s
            },
            TemplateException::Retryable(m) => {
                let mut s = String::from_str("Retryable Exception: ");
                s.append(m.as_str());
                s
            },
            TemplateException::Unhandled(m) => {
                let mut s = String::from_str("Internal Exception, something uncaught occurred: ");
                s.append(m.as_str());
                s
            },
        }
    }
}
/// A failed call for the schema.
#[derive(Debug)]
pub enum SchemaException {
    /// The schema or the policy store does not exist.
    ResourceNotFound(String),
    /// The caller may not make the call.
    AccessDenied(String),
    /// The request was malformed.
    Validation(String),
    /// An internal error or throttling; the only kind worth retrying.
    Retryable(String),
    /// Any other failure.
    Unhandled(String),
}

impl SchemaException {

    /// Classifies a failure the remote service reported: internal errors and
    /// throttling become `Retryable`, the other kinds keep their name.
    pub fn from_service(kind: ServiceErrorKind, message: String) -> (r: Self)
        ensures
            r.message() == message@,
            r.kind() == retry_class(kind),
    {
        match kind {
            ServiceErrorKind::ResourceNotFound => SchemaException::ResourceNotFound(message),
            ServiceErrorKind::AccessDenied => SchemaException::AccessDenied(message),
            ServiceErrorKind::Validation => SchemaException::Validation(message),
            ServiceErrorKind::InternalServer => SchemaException::Retryable(message),
            ServiceErrorKind::Throttling => SchemaException::Retryable(message),
            ServiceErrorKind::Unhandled => SchemaException::Unhandled(message),
        }
    }

    /// The class of this exception.
    pub open spec fn kind(&self) -> ExceptionClass {
        match self {
            SchemaException::ResourceNotFound(_) => ExceptionClass::ResourceNotFound,
            SchemaException::AccessDenied(_) => ExceptionClass::AccessDenied,
            SchemaException::Validation(_) => ExceptionClass::Validation,
            SchemaException::Retryable(_) => ExceptionClass::Retryable,
            SchemaException::Unhandled(_) => ExceptionClass::Unhandled,
        }
    }

    /// The description the service gave.
    pub open spec fn message(&self) -> Seq<char> {
        match self {
            SchemaException::ResourceNotFound(m) => m@,
            SchemaException::AccessDenied(m) => m@,
            SchemaException::Validation(m) => m@,
            SchemaException::Retryable(m) => m@,
            SchemaException::Unhandled(m) => m@,
        }
    }

    /// The call that failed is worth repeating.
    pub fn is_retryable(&self) -> (r: bool)
        ensures
            r == (self.kind() == ExceptionClass::Retryable),
    {
        match self {
            SchemaException::Retryable(_) => true,
            _ => false,
        }
    }

    /// The text shown for this exception.
    pub open spec fn text(&self) -> Seq<char> {
        match self {
            SchemaException::ResourceNotFound(m) => "Schema not found exception: "@ + m@,
            SchemaException::AccessDenied(m) => "Amazon Verified Permissions Access Denied exception: "@ + m@,
            SchemaException::Validation(m) => "Invalid Input Exception: "@ + m@,
            SchemaException::Retryable(m) => "Retryable Exception: "@ + m@,
            SchemaException::Unhandled(m) => "Internal Exception, something uncaught occurred: "@ + m@,
        }
    }

    /// The exception as text.
    pub fn to_string(&self) -> (r: String)
        ensures
            r@ == self.text(),
    {
        match self {
            SchemaException::ResourceNotFound(m) => {
                let mut s = String::from_str("Schema not found exception: ");
                s.append(m.as_str());
                s
            },
            SchemaException::AccessDenied(m) => {
                let mut s = String::from_str("Amazon Verified Permissions Access Denied exception: ");
                s.append(m.as_str());
                s
            },
            SchemaException::Validation(m) => {
                let mut s = String::from_str("Invalid Input Exception: ");
                s.append(m.as_str());
                s
            },
            SchemaException::Retryable(m) => {
                let mut s = String::from_str("Retryable Exception: ");
                s.append(m.as_str());
                s
            },
            SchemaException::Unhandled(m) => {
                let mut s = String::from_str("Internal Exception, something uncaught occurred: ");
                s.append(m.as_str());
                s
            },
        }
    }
}

} // verus!
