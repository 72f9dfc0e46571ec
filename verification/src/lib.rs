//! A single capability surface for external effects.
//!
//! The [`contract::Extio`] trait enumerates every operation an application may
//! want from its environment: files, object storage, HTTP and raw sockets,
//! WebSockets, databases, processes, message queues, IPC, time, environment
//! variables, observability, and cryptography. A backend implements only the
//! subset it actually supports; every other operation keeps the contract's
//! default, which reports a distinguishable "not supported" failure instead of
//! panicking or silently succeeding.

pub mod backend;
pub mod clock;
pub mod contract;
pub mod error;
pub mod http;
pub mod op;
pub mod store;

pub use backend::CannedHttpBackend;
pub use backend::NoError;
pub use backend::NullBackend;
pub use clock::Timestamp;
pub use contract::Extio;
pub use error::IoError;
pub use http::HttpMethod;
pub use http::HttpRequest;
pub use http::HttpResponse;
pub use op::Op;
pub use op::SuspensionClass;
pub use store::StoreBackend;
pub use store::StoreError;
