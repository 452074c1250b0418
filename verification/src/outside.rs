//! Types of other crates and of std that the library carries without looking inside.
use vstd::prelude::*;

verus! {

/// The error of a failed D-Bus exchange.
#[verifier::external_type_specification]
#[verifier::external_body]
pub struct ExBusError(zbus::Error);

/// The error of a failed parse of introspection XML.
#[verifier::external_type_specification]
#[verifier::external_body]
pub struct ExXmlError(zbus_xml::Error);

/// The error of a failed read under `/proc`.
#[verifier::external_type_specification]
#[verifier::external_body]
pub struct ExProcError(procfs::ProcError);

/// The error of a failed file operation.
#[verifier::external_type_specification]
#[verifier::external_body]
pub struct ExIoError(std::io::Error);

/// The error of a text that is no integer.
#[verifier::external_type_specification]
#[verifier::external_body]
pub struct ExParseIntError(std::num::ParseIntError);

/// A path of the file system.
#[verifier::external_type_specification]
#[verifier::external_body]
pub struct ExPathBuf(std::path::PathBuf);

/// Where a value is written for debugging.
#[verifier::external_type_specification]
#[verifier::external_body]
pub struct ExFormatter<'a>(std::fmt::Formatter<'a>);

/// The error of a failed write to a formatter.
#[verifier::external_type_specification]
#[verifier::external_body]
pub struct ExFmtError(std::fmt::Error);

/// A structure that is being written for debugging.
#[verifier::external_type_specification]
#[verifier::external_body]
pub struct ExDebugStruct<'a, 'b: 'a>(std::fmt::DebugStruct<'a, 'b>);

/// `PathBuf::clone` hands out a duplicate of the path.
pub assume_specification[ <std::path::PathBuf as Clone>::clone ](path: &std::path::PathBuf) -> (res: std::path::PathBuf)
    ensures
        res == *path,
;

} // verus!
