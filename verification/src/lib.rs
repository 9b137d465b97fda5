//! Local relay core: a rendezvous mailbox for peer-connection handshake
//! messages and a lossy broadcast hub that fans a live binary frame stream
//! out to any number of duplex-connection sessions.

pub mod codec;
pub mod hub;
pub mod livehub;
pub mod mailbox;
pub mod msg;
pub mod relay;
pub mod session;
