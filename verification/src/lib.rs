//! Building blocks of an epoll-driven TCP socket server: the decisions the
//! acceptor and the worker loops take, the epoll registrations they make,
//! peer-address reporting and configuration settings.

pub mod socket;
