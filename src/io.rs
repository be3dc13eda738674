use vstd::prelude::*;

verus! {

/// `std::io::Empty`, the reader of an interactive bundle.
#[verifier::external_type_specification]
#[verifier::external_body]
pub struct ExEmpty(std::io::Empty);

/// `std::io::Sink`, the writer of an interactive bundle.
#[verifier::external_type_specification]
#[verifier::external_body]
pub struct ExSink(std::io::Sink);

/// Relies on `std::io::empty`: a reader that holds no bytes.
pub assume_specification[ std::io::empty ]() -> std::io::Empty;

/// Relies on `std::io::sink`: a writer that discards what it is given.
pub assume_specification[ std::io::sink ]() -> std::io::Sink;

/// How the password is obtained and where the prompt goes.
///
/// An interactive bundle reads from the controlling terminal with echo off;
/// its reader and writer are never consulted. A scripted bundle supplies a
/// reader holding the typed password line and a writer for the prompt.
pub trait IoBundle: Sized {
    /// A buffered byte reader (`std::io::BufRead`) for the password line.
    type IoRead;
    /// A byte writer (`std::io::Write`) for the prompt.
    type IoWrite;

    /// Whether the password comes from the terminal, which also decides
    /// whether progress may be shown.
    fn is_interactive() -> (r: bool)
        default_ensures
            r == false,
    {
        false
    }

    /// The source of the password line; only for a scripted bundle.
    fn get_bufread(&self) -> Self::IoRead;

    /// The sink for the prompt text; only for a scripted bundle.
    fn get_write(&self) -> Self::IoWrite;
}

/// The bundle of a user at a terminal.
pub struct InteractiveIo;

impl IoBundle for InteractiveIo {
    type IoRead = std::io::Empty;
    type IoWrite = std::io::Sink;

    fn is_interactive() -> (r: bool)
        ensures
            r == true,
    {
        true
    }

    /// Never consulted: the terminal is read directly. An empty reader.
    fn get_bufread(&self) -> Self::IoRead {
        std::io::empty()
    }

    /// Never consulted: the prompt goes to the terminal. A discarding writer.
    fn get_write(&self) -> Self::IoWrite {
        std::io::sink()
    }
}

} // verus!
