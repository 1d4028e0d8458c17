//! What can go wrong, and how each failure is reported.

use vstd::prelude::*;
use vstd::string::StringExecFns;
use crate::text::joined;

verus! {

/// A failed call to the compute service, with the service's own account of it.
#[derive(Debug, Clone, PartialEq, Eq)]
pub enum Ec2SdkError {
    CreateTagsError(String),
    DescribeInstancesError(String),
    RebootInstancesError(String),
    StartInstancesError(String),
    StopInstancesError(String),
    TerminateInstancesError(String),
}

impl Ec2SdkError {
    /// The service's own account of the failure.
    pub open spec fn detail(&self) -> Seq<char> {
        match self {
            Ec2SdkError::CreateTagsError(e) => e@,
            Ec2SdkError::DescribeInstancesError(e) => e@,
            Ec2SdkError::RebootInstancesError(e) => e@,
            Ec2SdkError::StartInstancesError(e) => e@,
            Ec2SdkError::StopInstancesError(e) => e@,
            Ec2SdkError::TerminateInstancesError(e) => e@,
        }
    }

    /// The words that name the call that failed.
    pub open spec fn heading(&self) -> Seq<char> {
        match self {
            Ec2SdkError::CreateTagsError(_) => "Failed to create tags: "@,
            Ec2SdkError::DescribeInstancesError(_) => "Failed to describe instances: "@,
            Ec2SdkError::RebootInstancesError(_) => "Failed to reboot instances: "@,
            Ec2SdkError::StartInstancesError(_) => "Failed to start instances: "@,
            Ec2SdkError::StopInstancesError(_) => "Failed to stop instances: "@,
            Ec2SdkError::TerminateInstancesError(_) => "Failed to terminate instances: "@,
        }
    }

    /// The text of the message.
    pub open spec fn text(&self) -> Seq<char> {
        self.heading() + self.detail()
    }

    /// The message shown to the operator.
    pub fn message(&self) -> (text: String)
        ensures
            text@ == self.text(),
    {
        match self {
            Ec2SdkError::CreateTagsError(e) => joined("Failed to create tags: ", e.as_str()),
            Ec2SdkError::DescribeInstancesError(e) => joined(
                "Failed to describe instances: ",
                e.as_str(),
            ),
            Ec2SdkError::RebootInstancesError(e) => joined(
                "Failed to reboot instances: ",
                e.as_str(),
            ),
            Ec2SdkError::StartInstancesError(e) => joined("Failed to start instances: ", e.as_str()),
            Ec2SdkError::StopInstancesError(e) => joined("Failed to stop instances: ", e.as_str()),
            Ec2SdkError::TerminateInstancesError(e) => joined(
                "Failed to terminate instances: ",
                e.as_str(),
            ),
        }
    }
}

/// Any failure of a run.
#[derive(Debug, Clone, PartialEq, Eq)]
pub enum Error {
    /// The duration given for the tag could not be read.
    InvalidDuration(String),
    /// The time given for the tag could not be read.
    InvalidTime(String),
    /// The command line asks for something that cannot be done.
    InvalidUsage(String),
    /// A host name could not be resolved.
    ResolveError(String),
    /// A value left the range in which it can be handled.
    Runtime(String),
    /// A call to the compute service failed.
    SdkError(Ec2SdkError),
    /// The operator asked for the usage text.
    ShowUsage,
}

impl Error {
    /// The text of the message.
    pub open spec fn text(&self) -> Seq<char> {
        match self {
            Error::InvalidDuration(msg) => "Invalid duration: "@ + msg@,
            Error::InvalidTime(msg) => "Invalid time: "@ + msg@,
            Error::InvalidUsage(msg) => "Invalid usage: "@ + msg@,
            Error::ResolveError(e) => "DNS error: "@ + e@,
            Error::Runtime(msg) => "Runtime error: "@ + msg@,
            Error::SdkError(e) => "AWS SDK error: "@ + e.text(),
            Error::ShowUsage => "Show usage"@,
        }
    }

    /// The message shown to the operator.
    pub fn message(&self) -> (text: String)
        ensures
            text@ == self.text(),
    {
        match self {
            Error::InvalidDuration(msg) => joined("Invalid duration: ", msg.as_str()),
            Error::InvalidTime(msg) => joined("Invalid time: ", msg.as_str()),
            Error::InvalidUsage(msg) => joined("Invalid usage: ", msg.as_str()),
            Error::ResolveError(e) => joined("DNS error: ", e.as_str()),
            Error::Runtime(msg) => joined("Runtime error: ", msg.as_str()),
            Error::SdkError(e) => {
                let inner = e.message();
                joined("AWS SDK error: ", inner.as_str())
            },
            Error::ShowUsage => String::from_str("Show usage"),
        }
    }

    /// Whether the failure lies in how the program was called.
    pub open spec fn is_usage(&self) -> bool {
        self is InvalidDuration || self is InvalidTime || self is InvalidUsage
    }

    /// The exit code of a run that ends with this: 0 where the operator asked
    /// for help, 2 for a wrong call, 1 for every other failure.
    pub open spec fn code(&self) -> int {
        if self is ShowUsage {
            0
        } else if self.is_usage() {
            2
        } else {
            1
        }
    }

    /// The exit code of a run that ends with this.
    pub fn exit_code(&self) -> (code: u8)
        ensures
            code == self.code(),
    {
        match self {
            Error::ShowUsage => 0,
            Error::InvalidDuration(_) | Error::InvalidTime(_) | Error::InvalidUsage(_) => 2,
            Error::ResolveError(_) | Error::Runtime(_) | Error::SdkError(_) => 1,
        }
    }

    /// Whether the usage text goes with the message.
    pub fn shows_usage(&self) -> (shown: bool)
        ensures
            shown == (self is ShowUsage || self is InvalidUsage),
    {
        match self {
            Error::ShowUsage | Error::InvalidUsage(_) => true,
            _ => false,
        }
    }
}

} // verus!
