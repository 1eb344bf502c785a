//! Decision core of a UDP datagram reactor pair: routing keys, registration
//! tokens, the replaceable pool of extra sockets, wake intents, the receive
//! drain and the shutdown registry. The I/O itself is performed by the caller.
pub mod drain;
pub mod notify;
pub mod pool;
pub mod route;
pub mod shutdown;
pub mod tokens;
