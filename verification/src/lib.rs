pub mod error;
pub mod event;
pub mod ident;
pub mod laws;
pub mod state;
