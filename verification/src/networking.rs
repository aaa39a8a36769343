//! Wire format, identities, conversations and the decisions of the network
//! loop.

pub mod abstraction;
pub mod contact;
pub mod identity;
pub mod laws;
pub mod model;
pub mod network;
pub mod packet;
