//! In-memory model of typeset tables: rows of cells with a fixed column
//! layout, validated on insertion and rendered to markup lines.

pub mod document;
pub mod table;
