//! What can go wrong, and how far a sequence of writes came before it did.

use crate::text;
use vstd::prelude::*;
use vstd::string::*;

verus! {

/// `std::io::Error`, carried through as it comes from the operating system. Nothing is claimed of
/// what it holds.
#[verifier::external_type_specification]
#[verifier::external_body]
pub struct ExIoError(std::io::Error);

/// How many of the writes of one logical operation were accepted.
#[derive(Debug, Clone, Copy, PartialEq, Eq, Structural)]
pub struct WriteProgress {
    pub completed: u8,
    pub total: u8,
}

impl WriteProgress {
    /// The number of writes that were accepted.
    pub fn completed(&self) -> (n: u8)
        ensures
            n == self.completed,
    {
        self.completed
    }

    /// The number of writes that the operation consists of.
    pub fn total(&self) -> (n: u8)
        ensures
            n == self.total,
    {
        self.total
    }

    /// Whether the operation failed before its first write landed.
    pub fn nothing_written(&self) -> (nothing: bool)
        ensures
            nothing == (self.completed == 0),
    {
        self.completed == 0
    }

    /// The progress in words: how many of how many writes were completed.
    pub open spec fn summary(self) -> Seq<char> {
        "proxy write failed: "@ + text::decimal(self.completed as nat) + " of "@ + text::decimal(
            self.total as nat,
        ) + " writes completed"@
    }

    /// The progress in words.
    pub fn message(&self) -> (message: String)
        ensures
            message@ == self.summary(),
    {
        let completed = text::decimal_text(self.completed as u16);
        let total = text::decimal_text(self.total as u16);
        "proxy write failed: ".to_owned().concat(completed.as_str()).concat(" of ").concat(
            total.as_str(),
        ).concat(" writes completed")
    }
}

/// The failures of this library.
#[derive(Debug)]
pub enum Error {
    /// A process could not be run.
    Io(std::io::Error),
    /// There is no network service of the wanted name or id.
    NetworkInterface,
    /// No network service is active.
    NoActiveNetworkService,
    /// The dynamic store cannot be opened.
    SCDynamicStore,
    /// The preferences hold no proxy configuration for the service.
    SCPreferences,
    /// Settings were not found, or are not of the expected kind.
    ParseStr(String),
    /// `networksetup` failed.
    NetworkSetup(String),
    /// `networksetup` asks for administrator rights.
    RequiresAdminPrivileges,
    /// A step of a SystemConfiguration transaction was refused.
    SystemConfiguration(&'static str),
    /// A write failed; `progress` tells how many had been accepted before.
    ProxyWrite { progress: WriteProgress, source: Box<Error> },
}

/// What an [`Error`] stands for.
pub enum ErrorView {
    Io(std::io::Error),
    NetworkInterface,
    NoActiveNetworkService,
    SCDynamicStore,
    SCPreferences,
    ParseStr(Seq<char>),
    NetworkSetup(Seq<char>),
    RequiresAdminPrivileges,
    SystemConfiguration(Seq<char>),
    ProxyWrite { progress: WriteProgress, source: Box<ErrorView> },
}

impl Error {
    /// What the error stands for, with its texts as sequences of characters.
    pub open spec fn meaning(self) -> ErrorView
        decreases self,
    {
        match self {
            Error::Io(e) => ErrorView::Io(e),
            Error::NetworkInterface => ErrorView::NetworkInterface,
            Error::NoActiveNetworkService => ErrorView::NoActiveNetworkService,
            Error::SCDynamicStore => ErrorView::SCDynamicStore,
            Error::SCPreferences => ErrorView::SCPreferences,
            Error::ParseStr(s) => ErrorView::ParseStr(s@),
            Error::NetworkSetup(s) => ErrorView::NetworkSetup(s@),
            Error::RequiresAdminPrivileges => ErrorView::RequiresAdminPrivileges,
            Error::SystemConfiguration(s) => ErrorView::SystemConfiguration(s@),
            Error::ProxyWrite { progress, source } => ErrorView::ProxyWrite {
                progress,
                source: Box::new(source.meaning()),
            },
        }
    }

    /// The failure that caused this one, where it is one of this library's.
    pub fn source(&self) -> (cause: Option<&Error>)
        ensures
            match self@ {
                ErrorView::ProxyWrite { source, .. } => cause matches Some(e) && e@ == *source,
                _ => cause is None,
            },
    {
        match self {
            Error::ProxyWrite { source, .. } => Some(&**source),
            _ => None,
        }
    }

    /// A one-line description. That of a failed write tells how far the operation came, and leaves
    /// the cause to [`Error::source`].
    pub fn message(&self) -> (text: String)
        ensures
            text@ == self@.message(),
    {
        match self {
            Error::Io(_) => "failed to run networksetup".to_owned(),
            Error::NetworkInterface => "failed to get the network interface".to_owned(),
            Error::NoActiveNetworkService => "no active network service".to_owned(),
            Error::SCDynamicStore => "failed to open the dynamic store".to_owned(),
            Error::SCPreferences => "failed to read the network preferences".to_owned(),
            Error::ParseStr(s) => "failed to parse: ".to_owned().concat(s.as_str()),
            Error::NetworkSetup(s) => "networksetup failed: ".to_owned().concat(s.as_str()),
            Error::RequiresAdminPrivileges => "networksetup requires admin privileges".to_owned(),
            Error::SystemConfiguration(s) => "SystemConfiguration refused to ".to_owned().concat(s),
            Error::ProxyWrite { progress, .. } => progress.message(),
        }
    }
}

impl View for Error {
    type V = ErrorView;

    open spec fn view(&self) -> ErrorView {
        self.meaning()
    }
}

impl ErrorView {
    /// The one-line description of the error.
    pub open spec fn message(self) -> Seq<char> {
        match self {
            ErrorView::Io(_) => "failed to run networksetup"@,
            ErrorView::NetworkInterface => "failed to get the network interface"@,
            ErrorView::NoActiveNetworkService => "no active network service"@,
            ErrorView::SCDynamicStore => "failed to open the dynamic store"@,
            ErrorView::SCPreferences => "failed to read the network preferences"@,
            ErrorView::ParseStr(s) => "failed to parse: "@ + s,
            ErrorView::NetworkSetup(s) => "networksetup failed: "@ + s,
            ErrorView::RequiresAdminPrivileges => "networksetup requires admin privileges"@,
            ErrorView::SystemConfiguration(s) => "SystemConfiguration refused to "@ + s,
            ErrorView::ProxyWrite { progress, .. } => progress.summary(),
        }
    }
}

/// A result, seen through the views of what it holds.
pub open spec fn outcome<T: View>(result: Result<T, Error>) -> Result<T::V, ErrorView> {
    match result {
        Ok(value) => Ok(value@),
        Err(e) => Err(e@),
    }
}

} // verus!
