//! The errors of the library.
use vstd::prelude::*;

verus! {

/// The stage of discovery that found nothing.
#[derive(Clone, Copy, Debug, PartialEq, Eq, Structural)]
pub enum Stage {
    /// The scan of low physical memory for the boot stub.
    LowStub,
    /// The scan of virtual memory for the kernel image.
    KernelImage,
    /// The scan of the kernel image for the system process.
    ProcessAnchor,
}

/// Why a read of target memory gave no bytes.
#[derive(Clone, Copy, Debug, PartialEq, Eq, Structural)]
pub enum ReadError {
    /// The transport failed.
    Io,
    /// The virtual address has no translation under the given root.
    Translation,
}

#[derive(Clone, Copy, Debug, PartialEq, Eq, Structural)]
pub enum Error {
    /// No candidate was accepted anywhere in a stage's scan.
    DiscoveryFailed(Stage),
    /// The memory access capability failed a read.
    IoError,
    /// A virtual address that had to be read has no translation.
    TranslationFailed,
    /// No symbol source belongs to this kernel.
    SymbolsUnavailable,
    /// The symbol source does not describe the structure asked for.
    UnknownStructure,
    /// The structure has no field of the name asked for.
    UnknownField,
    /// A process behind a function table reported failure; its status code
    /// says no more.
    Plugin,
}

impl Error {
    /// The error that a failed read surfaces as.
    pub open spec fn spec_from_read(e: ReadError) -> Error {
        match e {
            ReadError::Io => Error::IoError,
            ReadError::Translation => Error::TranslationFailed,
        }
    }

    pub fn from_read(e: ReadError) -> (r: Error)
        ensures
            r == Error::spec_from_read(e),
    {
        match e {
            ReadError::Io => Error::IoError,
            ReadError::Translation => Error::TranslationFailed,
        }
    }

    /// A short description, for reports.
    pub fn describe(&self) -> (s: &'static str)
        ensures
            s@ == Error::spec_describe(*self),
    {
        match self {
            Error::DiscoveryFailed(Stage::LowStub) => "discovery failed: no low stub",
            Error::DiscoveryFailed(Stage::KernelImage) => "discovery failed: no kernel image",
            Error::DiscoveryFailed(Stage::ProcessAnchor) => "discovery failed: no system process",
            Error::IoError => "memory read failed",
            Error::TranslationFailed => "address has no translation",
            Error::SymbolsUnavailable => "symbols unavailable",
            Error::UnknownStructure => "unknown structure",
            Error::UnknownField => "unknown field",
            Error::Plugin => "plugin call failed",
        }
    }

    pub open spec fn spec_describe(e: Error) -> Seq<char> {
        match e {
            Error::DiscoveryFailed(Stage::LowStub) => "discovery failed: no low stub"@,
            Error::DiscoveryFailed(Stage::KernelImage) => "discovery failed: no kernel image"@,
            Error::DiscoveryFailed(Stage::ProcessAnchor) => "discovery failed: no system process"@,
            Error::IoError => "memory read failed"@,
            Error::TranslationFailed => "address has no translation"@,
            Error::SymbolsUnavailable => "symbols unavailable"@,
            Error::UnknownStructure => "unknown structure"@,
            Error::UnknownField => "unknown field"@,
            Error::Plugin => "plugin call failed"@,
        }
    }
}

} // verus!
