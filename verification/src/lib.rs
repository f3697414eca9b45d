//! A minimal HTTP service skeleton: two static routes (`/healthz` answering a
//! JSON liveness record, `/` answering a fixed greeting with a log line) and
//! the constants the server bootstrap needs. The routing decision, the JSON
//! encoding of the health record and the fixed strings are verified here; the
//! socket work lives outside the library.

pub mod health;
pub mod json;
pub mod route;
pub mod server;
pub mod text;
