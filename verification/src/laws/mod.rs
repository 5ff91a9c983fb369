//! What holds of the library as a whole.
pub mod chunks;
pub mod exchange;
pub mod lines;
pub mod models;
pub mod requests;
pub mod responses;
pub mod streams;
pub mod text;
