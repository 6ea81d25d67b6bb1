//! The decisions of a load generator for DEX swap tables: which samples and makers it collects,
//! what each query draws and asks for, how answers are verified and what is reported. Talking to
//! the database, the clock and the terminal is left to the program around it.

pub mod args;
pub mod cursor;
pub mod draws;
pub mod filters;
pub mod makers;
pub mod number;
pub mod quote;
pub mod random;
pub mod reading;
pub mod report;
pub mod rows;
pub mod run;
pub mod sample;
pub mod stats;
pub mod template;
pub mod text;
pub mod timestamp;
pub mod union_query;
pub mod union_query_v2;
pub mod union_sql;
pub mod union_sql_v2;
