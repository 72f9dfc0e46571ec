//! The capability contract.
//!
//! [`Extio`] is one abstract surface for every external effect an application
//! may need. A backend implements only the operations it supports and
//! declares that subset through its [`Extio::supports`] specification; every
//! operation it leaves alone keeps the contract's default, which reports the
//! "not supported" failure for that operation and leaves the backend
//! untouched — never a panic, never a silent success. The one exception is
//! [`Extio::now`], whose default is a real reading of the system clock,
//! because every backend can satisfy it for free.

use vstd::prelude::*;

use crate::clock::system_now;
use crate::clock::Timestamp;
use crate::error::unsupported;
use crate::error::IoError;
use crate::http::HttpRequest;
use crate::http::HttpResponse;
use crate::op::Op;

verus! {

/// The capability contract: one interface enumerating every operation a
/// backend may expose.
///
/// All fallible operations on one backend resolve to the single failure type
/// `IoError<Self::Error>`: the backend's own `Error` for failures it reports,
/// and the `NotSupported` variant for operations it declines. The contract
/// promises, for every backend, that an operation outside the backend's
/// declared capability subset returns exactly the "not supported" failure
/// naming that operation, and leaves the backend's state as it was.
#[allow(unused_variables)]
pub trait Extio where Self: Sized {
    /// The backend's own error type, shared by every operation. It must be
    /// safe to hand across concurrent call boundaries.
    type Error: Send + Sync + 'static;

    /// The capability subset this backend declares: which operations it
    /// actually implements. Everything outside this subset keeps the
    /// contract's default behavior.
    spec fn supports(op: Op) -> bool;

    /// Reads a whole file into memory.
    fn read_file(&self, path: &str) -> (r: Result<Vec<u8>, IoError<Self::Error>>)
        ensures
            !Self::supports(Op::ReadFile) ==> r == Err::<Vec<u8>, IoError<Self::Error>>(
                IoError::NotSupported(Op::ReadFile),
            ),
        default_ensures
            r == Err::<Vec<u8>, IoError<Self::Error>>(IoError::NotSupported(Op::ReadFile)),
    {
        unsupported(Op::ReadFile)
    }

    /// Writes bytes into a file, creating or truncating it.
    fn write_file(&mut self, path: &str, data: &[u8]) -> (r: Result<(), IoError<Self::Error>>)
        ensures
            !Self::supports(Op::WriteFile) ==> r == Err::<(), IoError<Self::Error>>(
                IoError::NotSupported(Op::WriteFile),
            ),
            !Self::supports(Op::WriteFile) ==> *final(self) == *old(self),
        default_ensures
            r == Err::<(), IoError<Self::Error>>(IoError::NotSupported(Op::WriteFile)),
            *final(self) == *old(self),
    {
        unsupported(Op::WriteFile)
    }

    /// Deletes a file.
    fn delete_file(&mut self, path: &str) -> (r: Result<(), IoError<Self::Error>>)
        ensures
            !Self::supports(Op::DeleteFile) ==> r == Err::<(), IoError<Self::Error>>(
                IoError::NotSupported(Op::DeleteFile),
            ),
            !Self::supports(Op::DeleteFile) ==> *final(self) == *old(self),
        default_ensures
            r == Err::<(), IoError<Self::Error>>(IoError::NotSupported(Op::DeleteFile)),
            *final(self) == *old(self),
    {
        unsupported(Op::DeleteFile)
    }

    /// Lists the names inside a directory, in the backend's order.
    fn list_dir(&self, path: &str) -> (r: Result<Vec<String>, IoError<Self::Error>>)
        ensures
            !Self::supports(Op::ListDir) ==> r == Err::<Vec<String>, IoError<Self::Error>>(
                IoError::NotSupported(Op::ListDir),
            ),
        default_ensures
            r == Err::<Vec<String>, IoError<Self::Error>>(IoError::NotSupported(Op::ListDir)),
    {
        unsupported(Op::ListDir)
    }

    /// Uploads a blob of bytes to object storage under a key.
    fn storage_put(&mut self, key: &str, data: Vec<u8>) -> (r: Result<(), IoError<Self::Error>>)
        ensures
            !Self::supports(Op::StoragePut) ==> r == Err::<(), IoError<Self::Error>>(
                IoError::NotSupported(Op::StoragePut),
            ),
            !Self::supports(Op::StoragePut) ==> *final(self) == *old(self),
        default_ensures
            r == Err::<(), IoError<Self::Error>>(IoError::NotSupported(Op::StoragePut)),
            *final(self) == *old(self),
    {
        unsupported(Op::StoragePut)
    }

    /// Retrieves the blob stored under a key.
    fn storage_get(&self, key: &str) -> (r: Result<Vec<u8>, IoError<Self::Error>>)
        ensures
            !Self::supports(Op::StorageGet) ==> r == Err::<Vec<u8>, IoError<Self::Error>>(
                IoError::NotSupported(Op::StorageGet),
            ),
        default_ensures
            r == Err::<Vec<u8>, IoError<Self::Error>>(IoError::NotSupported(Op::StorageGet)),
    {
        unsupported(Op::StorageGet)
    }

    /// Deletes the blob stored under a key.
    fn storage_delete(&mut self, key: &str) -> (r: Result<(), IoError<Self::Error>>)
        ensures
            !Self::supports(Op::StorageDelete) ==> r == Err::<(), IoError<Self::Error>>(
                IoError::NotSupported(Op::StorageDelete),
            ),
            !Self::supports(Op::StorageDelete) ==> *final(self) == *old(self),
        default_ensures
            r == Err::<(), IoError<Self::Error>>(IoError::NotSupported(Op::StorageDelete)),
            *final(self) == *old(self),
    {
        unsupported(Op::StorageDelete)
    }

    /// Performs one HTTP exchange: sends the structured request, returns the
    /// structured response.
    fn http_request(&mut self, req: HttpRequest) -> (r: Result<HttpResponse, IoError<Self::Error>>)
        ensures
            !Self::supports(Op::HttpRequest) ==> r == Err::<HttpResponse, IoError<Self::Error>>(
                IoError::NotSupported(Op::HttpRequest),
            ),
            !Self::supports(Op::HttpRequest) ==> *final(self) == *old(self),
        default_ensures
            r == Err::<HttpResponse, IoError<Self::Error>>(IoError::NotSupported(Op::HttpRequest)),
            *final(self) == *old(self),
    {
        unsupported(Op::HttpRequest)
    }

    /// Sends bytes to an address over TCP and returns the reply.
    fn tcp_send(&mut self, addr: &str, data: &[u8]) -> (r: Result<Vec<u8>, IoError<Self::Error>>)
        ensures
            !Self::supports(Op::TcpSend) ==> r == Err::<Vec<u8>, IoError<Self::Error>>(
                IoError::NotSupported(Op::TcpSend),
            ),
            !Self::supports(Op::TcpSend) ==> *final(self) == *old(self),
        default_ensures
            r == Err::<Vec<u8>, IoError<Self::Error>>(IoError::NotSupported(Op::TcpSend)),
            *final(self) == *old(self),
    {
        unsupported(Op::TcpSend)
    }

    /// Sends one UDP packet, fire and forget.
    fn udp_send(&mut self, addr: &str, data: &[u8]) -> (r: Result<(), IoError<Self::Error>>)
        ensures
            !Self::supports(Op::UdpSend) ==> r == Err::<(), IoError<Self::Error>>(
                IoError::NotSupported(Op::UdpSend),
            ),
            !Self::supports(Op::UdpSend) ==> *final(self) == *old(self),
        default_ensures
            r == Err::<(), IoError<Self::Error>>(IoError::NotSupported(Op::UdpSend)),
            *final(self) == *old(self),
    {
        unsupported(Op::UdpSend)
    }

    /// Establishes a WebSocket connection.
    fn ws_connect(&mut self, url: &str) -> (r: Result<(), IoError<Self::Error>>)
        ensures
            !Self::supports(Op::WsConnect) ==> r == Err::<(), IoError<Self::Error>>(
                IoError::NotSupported(Op::WsConnect),
            ),
            !Self::supports(Op::WsConnect) ==> *final(self) == *old(self),
        default_ensures
            r == Err::<(), IoError<Self::Error>>(IoError::NotSupported(Op::WsConnect)),
            *final(self) == *old(self),
    {
        unsupported(Op::WsConnect)
    }

    /// Sends one WebSocket message.
    fn ws_send(&mut self, msg: &[u8]) -> (r: Result<(), IoError<Self::Error>>)
        ensures
            !Self::supports(Op::WsSend) ==> r == Err::<(), IoError<Self::Error>>(
                IoError::NotSupported(Op::WsSend),
            ),
            !Self::supports(Op::WsSend) ==> *final(self) == *old(self),
        default_ensures
            r == Err::<(), IoError<Self::Error>>(IoError::NotSupported(Op::WsSend)),
            *final(self) == *old(self),
    {
        unsupported(Op::WsSend)
    }

    /// Receives one WebSocket message.
    fn ws_receive(&mut self) -> (r: Result<Vec<u8>, IoError<Self::Error>>)
        ensures
            !Self::supports(Op::WsReceive) ==> r == Err::<Vec<u8>, IoError<Self::Error>>(
                IoError::NotSupported(Op::WsReceive),
            ),
            !Self::supports(Op::WsReceive) ==> *final(self) == *old(self),
        default_ensures
            r == Err::<Vec<u8>, IoError<Self::Error>>(IoError::NotSupported(Op::WsReceive)),
            *final(self) == *old(self),
    {
        unsupported(Op::WsReceive)
    }

    /// Runs a query that returns rows, as raw result bytes whose encoding is
    /// backend-defined.
    fn db_query(&mut self, query: &str, params: &[u8]) -> (r: Result<
        Vec<u8>,
        IoError<Self::Error>,
    >)
        ensures
            !Self::supports(Op::DbQuery) ==> r == Err::<Vec<u8>, IoError<Self::Error>>(
                IoError::NotSupported(Op::DbQuery),
            ),
            !Self::supports(Op::DbQuery) ==> *final(self) == *old(self),
        default_ensures
            r == Err::<Vec<u8>, IoError<Self::Error>>(IoError::NotSupported(Op::DbQuery)),
            *final(self) == *old(self),
    {
        unsupported(Op::DbQuery)
    }

    /// Runs a statement and returns how many rows it affected.
    fn db_execute(&mut self, query: &str, params: &[u8]) -> (r: Result<u64, IoError<Self::Error>>)
        ensures
            !Self::supports(Op::DbExecute) ==> r == Err::<u64, IoError<Self::Error>>(
                IoError::NotSupported(Op::DbExecute),
            ),
            !Self::supports(Op::DbExecute) ==> *final(self) == *old(self),
        default_ensures
            r == Err::<u64, IoError<Self::Error>>(IoError::NotSupported(Op::DbExecute)),
            *final(self) == *old(self),
    {
        unsupported(Op::DbExecute)
    }

    /// Runs a system command and returns its exit code and combined output.
    fn exec(&mut self, cmd: &str, args: &Vec<String>) -> (r: Result<
        (i32, Vec<u8>),
        IoError<Self::Error>,
    >)
        ensures
            !Self::supports(Op::Exec) ==> r == Err::<(i32, Vec<u8>), IoError<Self::Error>>(
                IoError::NotSupported(Op::Exec),
            ),
            !Self::supports(Op::Exec) ==> *final(self) == *old(self),
        default_ensures
            r == Err::<(i32, Vec<u8>), IoError<Self::Error>>(IoError::NotSupported(Op::Exec)),
            *final(self) == *old(self),
    {
        unsupported(Op::Exec)
    }

    /// Publishes a message to a topic.
    fn mq_publish(&mut self, topic: &str, data: &[u8]) -> (r: Result<(), IoError<Self::Error>>)
        ensures
            !Self::supports(Op::MqPublish) ==> r == Err::<(), IoError<Self::Error>>(
                IoError::NotSupported(Op::MqPublish),
            ),
            !Self::supports(Op::MqPublish) ==> *final(self) == *old(self),
        default_ensures
            r == Err::<(), IoError<Self::Error>>(IoError::NotSupported(Op::MqPublish)),
            *final(self) == *old(self),
    {
        unsupported(Op::MqPublish)
    }

    /// Consumes one message from a topic.
    fn mq_consume(&mut self, topic: &str) -> (r: Result<Vec<u8>, IoError<Self::Error>>)
        ensures
            !Self::supports(Op::MqConsume) ==> r == Err::<Vec<u8>, IoError<Self::Error>>(
                IoError::NotSupported(Op::MqConsume),
            ),
            !Self::supports(Op::MqConsume) ==> *final(self) == *old(self),
        default_ensures
            r == Err::<Vec<u8>, IoError<Self::Error>>(IoError::NotSupported(Op::MqConsume)),
            *final(self) == *old(self),
    {
        unsupported(Op::MqConsume)
    }

    /// Sends a message to another process over a named channel.
    fn ipc_send(&mut self, channel: &str, data: &[u8]) -> (r: Result<(), IoError<Self::Error>>)
        ensures
            !Self::supports(Op::IpcSend) ==> r == Err::<(), IoError<Self::Error>>(
                IoError::NotSupported(Op::IpcSend),
            ),
            !Self::supports(Op::IpcSend) ==> *final(self) == *old(self),
        default_ensures
            r == Err::<(), IoError<Self::Error>>(IoError::NotSupported(Op::IpcSend)),
            *final(self) == *old(self),
    {
        unsupported(Op::IpcSend)
    }

    /// Receives a message from another process over a named channel.
    fn ipc_receive(&mut self, channel: &str) -> (r: Result<Vec<u8>, IoError<Self::Error>>)
        ensures
            !Self::supports(Op::IpcReceive) ==> r == Err::<Vec<u8>, IoError<Self::Error>>(
                IoError::NotSupported(Op::IpcReceive),
            ),
            !Self::supports(Op::IpcReceive) ==> *final(self) == *old(self),
        default_ensures
            r == Err::<Vec<u8>, IoError<Self::Error>>(IoError::NotSupported(Op::IpcReceive)),
            *final(self) == *old(self),
    {
        unsupported(Op::IpcReceive)
    }

    /// The current time. The sole operation with a real default: with no
    /// override it reads the system clock, since every backend can satisfy
    /// it for free and it has no meaningful "unsupported" outcome.
    fn now(&self) -> Timestamp {
        system_now()
    }

    /// Completes only after the given number of milliseconds has elapsed.
    fn sleep(&mut self, millis: u64) -> (r: Result<(), IoError<Self::Error>>)
        ensures
            !Self::supports(Op::Sleep) ==> r == Err::<(), IoError<Self::Error>>(
                IoError::NotSupported(Op::Sleep),
            ),
            !Self::supports(Op::Sleep) ==> *final(self) == *old(self),
        default_ensures
            r == Err::<(), IoError<Self::Error>>(IoError::NotSupported(Op::Sleep)),
            *final(self) == *old(self),
    {
        unsupported(Op::Sleep)
    }

    /// Looks up a configuration value by key. The default declines rather
    /// than falling through to the process environment.
    fn get_env(&self, key: &str) -> (r: Result<Option<String>, IoError<Self::Error>>)
        ensures
            !Self::supports(Op::GetEnv) ==> r == Err::<Option<String>, IoError<Self::Error>>(
                IoError::NotSupported(Op::GetEnv),
            ),
        default_ensures
            r == Err::<Option<String>, IoError<Self::Error>>(IoError::NotSupported(Op::GetEnv)),
    {
        unsupported(Op::GetEnv)
    }

    /// Sets a configuration value.
    fn set_env(&mut self, key: &str, value: &str) -> (r: Result<(), IoError<Self::Error>>)
        ensures
            !Self::supports(Op::SetEnv) ==> r == Err::<(), IoError<Self::Error>>(
                IoError::NotSupported(Op::SetEnv),
            ),
            !Self::supports(Op::SetEnv) ==> *final(self) == *old(self),
        default_ensures
            r == Err::<(), IoError<Self::Error>>(IoError::NotSupported(Op::SetEnv)),
            *final(self) == *old(self),
    {
        unsupported(Op::SetEnv)
    }

    /// Writes a log entry with a severity level.
    fn log(&mut self, level: &str, msg: &str) -> (r: Result<(), IoError<Self::Error>>)
        ensures
            !Self::supports(Op::Log) ==> r == Err::<(), IoError<Self::Error>>(
                IoError::NotSupported(Op::Log),
            ),
            !Self::supports(Op::Log) ==> *final(self) == *old(self),
        default_ensures
            r == Err::<(), IoError<Self::Error>>(IoError::NotSupported(Op::Log)),
            *final(self) == *old(self),
    {
        unsupported(Op::Log)
    }

    /// Records a numeric metric value under a name.
    fn record_metric(&mut self, name: &str, value: i64) -> (r: Result<(), IoError<Self::Error>>)
        ensures
            !Self::supports(Op::RecordMetric) ==> r == Err::<(), IoError<Self::Error>>(
                IoError::NotSupported(Op::RecordMetric),
            ),
            !Self::supports(Op::RecordMetric) ==> *final(self) == *old(self),
        default_ensures
            r == Err::<(), IoError<Self::Error>>(IoError::NotSupported(Op::RecordMetric)),
            *final(self) == *old(self),
    {
        unsupported(Op::RecordMetric)
    }

    /// Retrieves a secret value from secure storage.
    fn get_secret(&self, key: &str) -> (r: Result<Vec<u8>, IoError<Self::Error>>)
        ensures
            !Self::supports(Op::GetSecret) ==> r == Err::<Vec<u8>, IoError<Self::Error>>(
                IoError::NotSupported(Op::GetSecret),
            ),
        default_ensures
            r == Err::<Vec<u8>, IoError<Self::Error>>(IoError::NotSupported(Op::GetSecret)),
    {
        unsupported(Op::GetSecret)
    }

    /// Signs bytes with the backend's key material.
    fn sign(&self, data: &[u8]) -> (r: Result<Vec<u8>, IoError<Self::Error>>)
        ensures
            !Self::supports(Op::Sign) ==> r == Err::<Vec<u8>, IoError<Self::Error>>(
                IoError::NotSupported(Op::Sign),
            ),
        default_ensures
            r == Err::<Vec<u8>, IoError<Self::Error>>(IoError::NotSupported(Op::Sign)),
    {
        unsupported(Op::Sign)
    }

    /// Verifies a signature over bytes.
    fn verify(&self, data: &[u8], sig: &[u8]) -> (r: Result<bool, IoError<Self::Error>>)
        ensures
            !Self::supports(Op::Verify) ==> r == Err::<bool, IoError<Self::Error>>(
                IoError::NotSupported(Op::Verify),
            ),
        default_ensures
            r == Err::<bool, IoError<Self::Error>>(IoError::NotSupported(Op::Verify)),
    {
        unsupported(Op::Verify)
    }
}

} // verus!
