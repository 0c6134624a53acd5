//! A C-facing layer over the GuerrillaMail client: status codes, a per-thread
//! "last error" slot, builder configuration, the owned buffers handed to C
//! callers, and the checks each entry point runs before and after it talks to
//! the service.
#![allow(non_camel_case_types)]

pub mod status;
pub mod last_error;
mod outside;
pub mod builder;
pub mod values;
pub mod client;
pub mod ffi;
