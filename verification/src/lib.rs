//! Terminal stock summary library: a currency symbol table, an exact decimal
//! model for fundamentals, company-overview parsing with string-to-number
//! coercion, and currency-aware report formatting.

pub mod currency;
pub mod decimal;
pub mod digits;
pub mod news;
pub mod overview;
pub mod report;
