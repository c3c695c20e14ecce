//! Error kinds of the conversion.

use vstd::prelude::*;

verus! {

#[verifier::external_type_specification]
#[verifier::external_body]
pub struct ExCalamineError(calamine::Error);

#[verifier::external_type_specification]
#[verifier::external_body]
pub struct ExIoError(std::io::Error);

/// Any failure of a conversion run.
#[derive(Debug)]
pub enum Xlsx2SqlError {
    Input(InputError),
    Parse(ParseError),
    Calamine(calamine::Error),
    Generator(GeneratorError),
    Output(OutputError),
}

/// Failures while locating or reading the input file.
#[derive(Debug)]
pub enum InputError {
    FileNotFound(String),
    InvalidFormat,
    PermissionDenied(String),
    Io(std::io::Error),
}

/// Failures while reading a workbook or a sheet's structure.
#[derive(Debug)]
pub enum ParseError {
    InvalidFormat,
    /// The sheet's grid has no rows at all.
    EmptySheet,
    /// The sheet's first row holds only empty or whitespace cells.
    MissingHeaders,
    CalamineError(calamine::Error),
}

/// Failures while building statements from a workbook.
#[derive(Debug)]
pub enum GeneratorError {
    /// No sheet of the workbook yielded a statement.
    NoData,
    Parse(ParseError),
}

/// Failures while writing the rendered text.
#[derive(Debug)]
pub enum OutputError {
    WriteError(String),
    Io(std::io::Error),
}

} // verus!
