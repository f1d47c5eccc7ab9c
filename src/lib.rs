//! A reader/writer borrow-counted cell, and a wrapper around it that turns
//! contention into suspension decisions for a cooperative scheduler.
//!
//! The borrow state is a single 16-bit counter: zero when unborrowed, `n` when
//! `n` read borrows are outstanding, and the all-ones sentinel while the one
//! write borrow is held. Guards are tokens handed out by a successful
//! acquisition and handed back to release it.

pub mod async_cell;
pub mod rw_cell;

pub use rw_cell::{RwCell, RwCount, RwRead, RwWrite, RW_WRITE};

pub use async_cell::{
    Acquire, AsyncCell, AsyncRead, AsyncReadFuture, AsyncWrite, AsyncWriteFuture, RequestStage,
};
