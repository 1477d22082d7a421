//! Names of archive files.
//!
//! An archive is a family of files that share a base name: a data file
//! that holds the images, and an index file or a secondary index file that
//! holds their offsets. Large families are split into numbered files.

use vstd::prelude::*;

verus! {

/// The data type that selects a data file.
pub const KIND_DATA: u32 = 0;

/// The data type that selects an index file.
pub const KIND_INDEX: u32 = 1;

/// The data type that selects a secondary index file.
pub const KIND_WZX: u32 = 2;

/// One of the three files of an archive.
#[derive(Debug, Clone, Copy, PartialEq, Eq, Structural)]
pub enum FileKind {
    /// The data file, with the extension `wzl`.
    Data,
    /// The index file, with the extension `idx`.
    Index,
    /// The secondary index file, with the extension `wzx`.
    Wzx,
}

/// A file of an archive: its name without directory and extension, and
/// which of the archive's files it is.
#[derive(Debug, Clone, PartialEq, Eq)]
pub struct ArchiveFile {
    pub name: String,
    pub kind: FileKind,
}

/// The file that a data type selects, if it selects one.
pub open spec fn kind_of(data_type: u32) -> Option<FileKind> {
    if data_type == KIND_DATA {
        Some(FileKind::Data)
    } else if data_type == KIND_INDEX {
        Some(FileKind::Index)
    } else if data_type == KIND_WZX {
        Some(FileKind::Wzx)
    } else {
        None
    }
}

/// The character that stands for a digit.
pub open spec fn digit(d: nat) -> char {
    if d == 0 {
        '0'
    } else if d == 1 {
        '1'
    } else if d == 2 {
        '2'
    } else if d == 3 {
        '3'
    } else if d == 4 {
        '4'
    } else if d == 5 {
        '5'
    } else if d == 6 {
        '6'
    } else if d == 7 {
        '7'
    } else if d == 8 {
        '8'
    } else {
        '9'
    }
}

/// A number written in decimal digits, without leading zeros.
pub open spec fn decimal(n: nat) -> Seq<char>
    decreases n,
{
    if n < 10 {
        seq![digit(n)]
    } else {
        decimal(n / 10).push(digit(n % 10))
    }
}

/// A string with its letters in lower case, as `str::to_lowercase` of the
/// standard library gives it.
pub uninterp spec fn lowercase(name: Seq<char>) -> Seq<char>;

/// The name of a file of an archive, without directory and extension: from
/// the second file of a family on, the base name as it is with the file's
/// number behind it; before that, the base name in lower case.
pub open spec fn file_stem(file_name: Seq<char>, file_number: u32) -> Seq<char> {
    if file_number > 1 {
        file_name + decimal(file_number as nat)
    } else {
        lowercase(file_name)
    }
}

/// Formats a name and a number with `format!("{}{}", ..)`.
///
/// Trusted: that the standard library writes a `&str` as it is and a `u32`
/// in decimal digits without leading zeros.
#[verifier::external_body]
fn numbered(file_name: &str, file_number: u32) -> (name: String)
    ensures
        name@ == file_name@ + decimal(file_number as nat),
{
    format!("{}{}", file_name, file_number)
}

/// Calls `str::to_lowercase`.
///
/// Trusted: that the result depends on the string alone.
#[verifier::external_body]
fn lowercased(file_name: &str) -> (name: String)
    ensures
        name@ == lowercase(file_name@),
{
    file_name.to_lowercase()
}

impl FileKind {
    /// The extension of the files of this kind.
    pub fn extension(&self) -> (extension: &'static str)
        ensures
            extension@ == match *self {
                FileKind::Data => "wzl"@,
                FileKind::Index => "idx"@,
                FileKind::Wzx => "wzx"@,
            },
    {
        match self {
            FileKind::Data => "wzl",
            FileKind::Index => "idx",
            FileKind::Wzx => "wzx",
        }
    }
}

/// The base name of an archive that is known from the start, by its file
/// id.
pub fn builtin_name(file_id: u32) -> (name: Option<&'static str>)
    ensures
        file_id == 1 ==> (name matches Some(name) && name@ == "tiles"@),
        file_id == 2 ==> (name matches Some(name) && name@ == "smTiles"@),
        file_id == 3 ==> (name matches Some(name) && name@ == "objects"@),
        !(1 <= file_id <= 3) ==> name is None,
{
    if file_id == 1 {
        Some("tiles")
    } else if file_id == 2 {
        Some("smTiles")
    } else if file_id == 3 {
        Some("objects")
    } else {
        None
    }
}

/// Names the file of an archive that a data type selects, or no file where
/// the data type selects none.
pub fn get_file_name(file_name: &str, file_number: u32, data_type: u32) -> (file: Option<
    ArchiveFile,
>)
    ensures
        match file {
            Some(file) => kind_of(data_type) == Some(file.kind) && file.name@ == file_stem(
                file_name@,
                file_number,
            ),
            None => kind_of(data_type) is None,
        },
{
    let kind = if data_type == KIND_DATA {
        FileKind::Data
    } else if data_type == KIND_INDEX {
        FileKind::Index
    } else if data_type == KIND_WZX {
        FileKind::Wzx
    } else {
        return None;
    };
    let name = if file_number > 1 {
        numbered(file_name, file_number)
    } else {
        lowercased(file_name)
    };
    Some(ArchiveFile { name, kind })
}

} // verus!
