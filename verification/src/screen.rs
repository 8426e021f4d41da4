//! The screens: what each holds while it is shown, what a message does to it,
//! and what it asks the application to do.

pub mod home;
pub mod receive;
pub mod send;
pub mod space;
pub mod timeline;
pub mod transactions;
