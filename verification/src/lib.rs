//! A small file-transfer HTTP server: configuration handling, request routing
//! and the request handlers, with their behaviour stated as Verus contracts.
use vstd::prelude::*;

pub mod common;
pub mod config;
pub mod text;
pub mod routing;
pub mod handlers;

verus! {

} // verus!
