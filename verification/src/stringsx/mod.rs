//! Small string utilities: changing the case of a text's first character, and
//! selecting the first non-empty text of a list.

pub mod case;
pub mod coalesce;
