//! Spreadsheet-to-SQL conversion: a typed model of workbook contents, the
//! rules that coerce spreadsheet cells into SQL values, and the rendering of
//! `INSERT` statements as escaped SQL text.

pub mod formatter;
pub mod numeric;
pub mod errors;
pub mod calendar;
pub mod data_model;
pub mod render;
pub mod sql_generator;
pub mod laws;
pub mod input;
