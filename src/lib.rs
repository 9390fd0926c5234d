//! A capability adapter: one `speak` operation served either by a native
//! duck or by an object living in the embedded Python runtime.
pub mod foreign;
pub mod duck;
pub mod adapter;
