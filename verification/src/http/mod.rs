//! HTTP-side data: per-request timing, connection timing, the connection
//! pool's and the client's settings, and the checked parts of a request.

pub mod timing;
pub mod connector;
pub mod pool;
pub mod uri;
pub mod request;
pub mod client;
