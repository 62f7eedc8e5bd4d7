pub mod batch;
pub mod crypto;
pub mod decimal;
pub mod destination;
pub mod hex;
pub mod naming;
pub mod sigv4;
pub mod upload;
