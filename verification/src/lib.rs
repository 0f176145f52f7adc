//! Cookie discovery, session selection and request-building logic of a
//! terminal YouTube Music client, with contracts checked by Verus.

pub mod text;
pub mod cookies;
pub mod paths;
pub mod gecko;
pub mod listing;
pub mod error;
pub mod session;
pub mod chromium;
pub mod dao;
pub mod bus;
pub mod snapshot;
pub mod tui;
pub mod handler;
