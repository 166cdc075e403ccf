//! Time-dimension planning core: date handling, granularity resolution with a
//! memoizing compiler cache, member symbols, the time-dimension wrapper and
//! the rendering of members into SQL.

pub mod error;
pub mod date_time;
pub mod text;
pub mod granularity;
pub mod compiler;
pub mod symbols;
pub mod base_time_dimension;
pub mod sql;
