//! A verified core for a small text-to-speech proxy.
//!
//! The library builds the outbound request pieces (JSON body, bearer header)
//! for a cloud text-to-speech service and translates the outcome of the HTTP
//! exchange into a structured result. The network call itself is made by the
//! host application; everything the library computes carries a contract.

pub mod body;
pub mod decimal;
pub mod encode;
pub mod greet;
pub mod request;
pub mod response;
pub mod status;
pub mod subseq;
