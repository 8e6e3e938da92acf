//! A verified library for an interactive client of a metal-music database
//! web API: it builds the request URLs, decodes the JSON responses into
//! typed records, cleans date fields, and makes every decision of the
//! interactive session (mode choice, selection, rendering of results and
//! details) as a function with a contract. The surrounding program does the
//! console and network I/O and nothing else.

pub mod dates;
pub mod decode;
pub mod json;
pub mod numbers;
pub mod records;
pub mod render;
pub mod session;
pub mod text;
pub mod urls;
