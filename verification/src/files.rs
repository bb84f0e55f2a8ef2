//! What comes of reading and writing the application's JSON files.

use vstd::prelude::*;

verus! {

/// What went wrong with a file.
#[derive(Debug, Clone, Copy, PartialEq, Eq, Structural)]
pub enum FileFault {
    /// Its bytes could not be parsed.
    Parse,
    /// It could not be read.
    Read,
    /// Its directory could not be made.
    MakeDirectory,
    /// The document could not be serialised.
    Serialize,
    /// It could not be written.
    Write,
}

/// What a fault of the file or directory `path` with the given cause reads.
pub open spec fn fault_text(fault: FileFault, path: Seq<char>, cause: Seq<char>) -> Seq<char> {
    match fault {
        FileFault::Parse => "parse "@ + path + ": "@ + cause,
        FileFault::Read => "read "@ + path + ": "@ + cause,
        FileFault::MakeDirectory => "mkdir "@ + path + ": "@ + cause,
        FileFault::Serialize => "serialize: "@ + cause,
        FileFault::Write => "write "@ + path + ": "@ + cause,
    }
}

impl FileFault {
    /// What a fault of the file or directory `path` with the given cause reads.
    pub fn describe(self, path: &str, cause: &str) -> (r: String)
        ensures
            r@ == fault_text(self, path@, cause@),
    {
        let mut s = match self {
            FileFault::Parse => "parse ".to_owned(),
            FileFault::Read => "read ".to_owned(),
            FileFault::MakeDirectory => "mkdir ".to_owned(),
            FileFault::Serialize => {
                let mut s = "serialize: ".to_owned();
                s.append(cause);
                return s;
            },
            FileFault::Write => "write ".to_owned(),
        };
        s.append(path);
        s.append(": ");
        s.append(cause);
        s
    }
}

/// What came of reading a file that holds a document of type `D`.
pub enum FileRead<D> {
    /// There is no such file.
    Missing,
    /// The file could not be read, for the given cause.
    Unreadable(String),
    /// The bytes of the file are no document, for the given cause.
    Unparsable(String),
    /// The file holds this document.
    Parsed(D),
}

/// The document that was read; `empty` for a missing file, which is the first run and no
/// failure; what the fault reads otherwise.
pub fn document<D>(path: &str, read: FileRead<D>, empty: D) -> (r: Result<D, String>)
    ensures
        (match read {
            FileRead::Missing => r == Ok::<D, String>(empty),
            FileRead::Parsed(d) => r == Ok::<D, String>(d),
            FileRead::Unreadable(cause) => r matches Err(m) && m@ == fault_text(
                FileFault::Read,
                path@,
                cause@,
            ),
            FileRead::Unparsable(cause) => r matches Err(m) && m@ == fault_text(
                FileFault::Parse,
                path@,
                cause@,
            ),
        }),
{
    match read {
        FileRead::Missing => Ok(empty),
        FileRead::Parsed(d) => Ok(d),
        FileRead::Unreadable(cause) => Err(FileFault::Read.describe(path, cause.as_str())),
        FileRead::Unparsable(cause) => Err(FileFault::Parse.describe(path, cause.as_str())),
    }
}

/// What each fault reads.
pub proof fn file_faults_read(path: Seq<char>, cause: Seq<char>)
    ensures
        fault_text(FileFault::Parse, path, cause) == "parse "@ + path + ": "@ + cause,
        fault_text(FileFault::Read, path, cause) == "read "@ + path + ": "@ + cause,
        fault_text(FileFault::MakeDirectory, path, cause) == "mkdir "@ + path + ": "@ + cause,
        fault_text(FileFault::Serialize, path, cause) == "serialize: "@ + cause,
        fault_text(FileFault::Write, path, cause) == "write "@ + path + ": "@ + cause,
{
}

} // verus!
