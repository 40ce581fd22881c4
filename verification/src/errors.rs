use vstd::prelude::*;

verus! {

/// Why the endpoint could not be brought up, or a request not served.
#[derive(Clone, Copy, Debug, PartialEq, Eq, Structural)]
pub enum MetricsError {
    /// The metrics exporter could not be installed in the registry.
    Initialization,
    /// The listening socket could not be bound.
    Bind,
    /// A gathered snapshot could not be serialized.
    Encoding,
}

impl MetricsError {
    /// A short description of the failure, for logs and error reports.
    pub fn message(&self) -> (m: String)
        ensures
            *self == MetricsError::Initialization ==> m@ == "metrics exporter initialization failed"@,
            *self == MetricsError::Bind ==> m@ == "could not bind the metrics listener"@,
            *self == MetricsError::Encoding ==> m@ == "metrics snapshot could not be encoded"@,
    {
        match self {
            MetricsError::Initialization => "metrics exporter initialization failed".to_owned(),
            MetricsError::Bind => "could not bind the metrics listener".to_owned(),
            MetricsError::Encoding => "metrics snapshot could not be encoded".to_owned(),
        }
    }
}

} // verus!
