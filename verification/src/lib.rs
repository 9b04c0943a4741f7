pub mod answer_laws;
pub mod api;
pub mod cleanup;
pub mod db;
pub mod history;
pub mod laws;
pub mod model;
pub mod outside;
pub mod read_laws;
pub mod reads;
pub mod txn;
