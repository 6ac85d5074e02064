use vstd::prelude::*;

verus! {

/// Every way the pipeline can fail; the first error aborts the run.
#[derive(Clone, Debug, PartialEq, Eq)]
pub enum ChartError {
    /// The provider credential is missing from the configuration.
    Config,
    /// The request could not be sent or its response not received.
    Network(String),
    /// The response body does not have the expected shape.
    Deserialization(String),
    /// The provider reported a status other than `"ok"`.
    RemoteStatus(String),
    /// The parallel sequences of a series differ in length.
    ShapeMismatch,
    /// A price range was asked of zero bars.
    EmptySeries,
    /// An epoch timestamp has no calendar date in the local time zone.
    InvalidTimestamp(i64),
    /// A drawing call failed.
    Render(String),
    /// The output file or its directory could not be written.
    Io(String),
}

} // verus!
