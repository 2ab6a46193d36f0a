//! A chat bot's cape catalog pipeline: on the trigger command it fetches the
//! catalog, looks up each record's player profile and replies once per record.
//!
//! The library holds the data model and every decision of a run; the program
//! around it performs the network work that each decision asks for.
pub mod catalog;
pub mod embed;
pub mod pipeline;
pub mod text;
