//! The errors that the commands of the application report.

use vstd::prelude::*;

verus! {

/// An error of a command, by its origin, with the message that goes with it.
#[derive(Debug)]
pub enum MyError {
    KubeError(String),
    IOError(String),
    SerdeYamlError(String),
    KubeconfigError(String),
    OtherError(String),
    WatchError(String),
    HttpError(String),
    NoClient(String),
    InvalidMethod(String),
    InvalidUuid(String),
}

impl MyError {
    /// The message that the error carries.
    pub open spec fn detail(&self) -> Seq<char> {
        match self {
            MyError::KubeError(s) => s@,
            MyError::IOError(s) => s@,
            MyError::SerdeYamlError(s) => s@,
            MyError::KubeconfigError(s) => s@,
            MyError::OtherError(s) => s@,
            MyError::WatchError(s) => s@,
            MyError::HttpError(s) => s@,
            MyError::NoClient(s) => s@,
            MyError::InvalidMethod(s) => s@,
            MyError::InvalidUuid(s) => s@,
        }
    }

    /// What stands before the message when the error is printed.
    pub open spec fn label(&self) -> Seq<char> {
        match self {
            MyError::KubeError(_) => "KubeError: "@,
            MyError::IOError(_) => "IOError: "@,
            MyError::SerdeYamlError(_) => "SerdeYamlError: "@,
            MyError::KubeconfigError(_) => "KubeconfigError: "@,
            MyError::OtherError(_) => " OtherError: "@,
            MyError::WatchError(_) => "Error: "@,
            MyError::HttpError(_) => "Error: "@,
            MyError::NoClient(_) => "Error: "@,
            MyError::InvalidMethod(_) => "InvalidMethod: "@,
            MyError::InvalidUuid(_) => "InvalidUuid: "@,
        }
    }

    /// The error as it is printed: its label, then its message.
    pub open spec fn printed(&self) -> Seq<char> {
        self.label() + self.detail()
    }

    /// The message that the error carries.
    pub fn message(&self) -> (s: &String)
        ensures
            s@ == self.detail(),
    {
        match self {
            MyError::KubeError(s) => s,
            MyError::IOError(s) => s,
            MyError::SerdeYamlError(s) => s,
            MyError::KubeconfigError(s) => s,
            MyError::OtherError(s) => s,
            MyError::WatchError(s) => s,
            MyError::HttpError(s) => s,
            MyError::NoClient(s) => s,
            MyError::InvalidMethod(s) => s,
            MyError::InvalidUuid(s) => s,
        }
    }

    /// The error as it is printed.
    pub fn to_string(&self) -> (s: String)
        ensures
            s@ == self.printed(),
    {
        let label = match self {
            MyError::KubeError(_) => "KubeError: ",
            MyError::IOError(_) => "IOError: ",
            MyError::SerdeYamlError(_) => "SerdeYamlError: ",
            MyError::KubeconfigError(_) => "KubeconfigError: ",
            MyError::OtherError(_) => " OtherError: ",
            MyError::WatchError(_) => "Error: ",
            MyError::HttpError(_) => "Error: ",
            MyError::NoClient(_) => "Error: ",
            MyError::InvalidMethod(_) => "InvalidMethod: ",
            MyError::InvalidUuid(_) => "InvalidUuid: ",
        };
        let mut s = label.to_string();
        s.append(self.message().as_str());
        s
    }
}

} // verus!
