//! Operation descriptors: one tag per operation of the capability surface,
//! together with its fixed suspension classification.

use vstd::prelude::*;

verus! {

/// A tag naming one operation of the capability surface.
///
/// Every operation a backend may expose has exactly one tag here. The tag is
/// carried inside the "not supported" failure, so a caller can tell which
/// operation a backend declined.
#[derive(Clone, Copy, Debug, PartialEq, Eq, Structural)]
pub enum Op {
    ReadFile,
    WriteFile,
    DeleteFile,
    ListDir,
    StoragePut,
    StorageGet,
    StorageDelete,
    HttpRequest,
    TcpSend,
    UdpSend,
    WsConnect,
    WsSend,
    WsReceive,
    DbQuery,
    DbExecute,
    Exec,
    MqPublish,
    MqConsume,
    IpcSend,
    IpcReceive,
    Now,
    Sleep,
    GetEnv,
    SetEnv,
    Log,
    RecordMetric,
    GetSecret,
    Sign,
    Verify,
}

/// How an operation relates to a cooperative scheduler.
///
/// `BlockingSafe` operations complete promptly and may be invoked from a
/// context that cannot yield. `SuspensionRequired` operations may wait on
/// external latency and must be run where the caller is allowed to suspend.
#[derive(Clone, Copy, Debug, PartialEq, Eq, Structural)]
pub enum SuspensionClass {
    BlockingSafe,
    SuspensionRequired,
}

/// The contract-level suspension classification of each operation.
///
/// This classification is fixed by the contract and does not vary per backend:
/// file, time-read, environment, observability and cryptography operations are
/// blocking-safe; storage, network, WebSocket, database, process, queue, IPC
/// and sleep operations require suspension.
pub open spec fn suspension_class_of(op: Op) -> SuspensionClass {
    match op {
        Op::ReadFile => SuspensionClass::BlockingSafe,
        Op::WriteFile => SuspensionClass::BlockingSafe,
        Op::DeleteFile => SuspensionClass::BlockingSafe,
        Op::ListDir => SuspensionClass::BlockingSafe,
        Op::StoragePut => SuspensionClass::SuspensionRequired,
        Op::StorageGet => SuspensionClass::SuspensionRequired,
        Op::StorageDelete => SuspensionClass::SuspensionRequired,
        Op::HttpRequest => SuspensionClass::SuspensionRequired,
        Op::TcpSend => SuspensionClass::SuspensionRequired,
        Op::UdpSend => SuspensionClass::SuspensionRequired,
        Op::WsConnect => SuspensionClass::SuspensionRequired,
        Op::WsSend => SuspensionClass::SuspensionRequired,
        Op::WsReceive => SuspensionClass::SuspensionRequired,
        Op::DbQuery => SuspensionClass::SuspensionRequired,
        Op::DbExecute => SuspensionClass::SuspensionRequired,
        Op::Exec => SuspensionClass::SuspensionRequired,
        Op::MqPublish => SuspensionClass::SuspensionRequired,
        Op::MqConsume => SuspensionClass::SuspensionRequired,
        Op::IpcSend => SuspensionClass::SuspensionRequired,
        Op::IpcReceive => SuspensionClass::SuspensionRequired,
        Op::Now => SuspensionClass::BlockingSafe,
        Op::Sleep => SuspensionClass::SuspensionRequired,
        Op::GetEnv => SuspensionClass::BlockingSafe,
        Op::SetEnv => SuspensionClass::BlockingSafe,
        Op::Log => SuspensionClass::BlockingSafe,
        Op::RecordMetric => SuspensionClass::BlockingSafe,
        Op::GetSecret => SuspensionClass::BlockingSafe,
        Op::Sign => SuspensionClass::BlockingSafe,
        Op::Verify => SuspensionClass::BlockingSafe,
    }
}

impl Op {
    /// The suspension classification of this operation, as fixed by the
    /// contract.
    pub fn suspension_class(&self) -> (c: SuspensionClass)
        ensures
            c == suspension_class_of(*self),
    {
        match self {
            Op::ReadFile => SuspensionClass::BlockingSafe,
            Op::WriteFile => SuspensionClass::BlockingSafe,
            Op::DeleteFile => SuspensionClass::BlockingSafe,
            Op::ListDir => SuspensionClass::BlockingSafe,
            Op::StoragePut => SuspensionClass::SuspensionRequired,
            Op::StorageGet => SuspensionClass::SuspensionRequired,
            Op::StorageDelete => SuspensionClass::SuspensionRequired,
            Op::HttpRequest => SuspensionClass::SuspensionRequired,
            Op::TcpSend => SuspensionClass::SuspensionRequired,
            Op::UdpSend => SuspensionClass::SuspensionRequired,
            Op::WsConnect => SuspensionClass::SuspensionRequired,
            Op::WsSend => SuspensionClass::SuspensionRequired,
            Op::WsReceive => SuspensionClass::SuspensionRequired,
            Op::DbQuery => SuspensionClass::SuspensionRequired,
            Op::DbExecute => SuspensionClass::SuspensionRequired,
            Op::Exec => SuspensionClass::SuspensionRequired,
            Op::MqPublish => SuspensionClass::SuspensionRequired,
            Op::MqConsume => SuspensionClass::SuspensionRequired,
            Op::IpcSend => SuspensionClass::SuspensionRequired,
            Op::IpcReceive => SuspensionClass::SuspensionRequired,
            Op::Now => SuspensionClass::BlockingSafe,
            Op::Sleep => SuspensionClass::SuspensionRequired,
            Op::GetEnv => SuspensionClass::BlockingSafe,
            Op::SetEnv => SuspensionClass::BlockingSafe,
            Op::Log => SuspensionClass::BlockingSafe,
            Op::RecordMetric => SuspensionClass::BlockingSafe,
            Op::GetSecret => SuspensionClass::BlockingSafe,
            Op::Sign => SuspensionClass::BlockingSafe,
            Op::Verify => SuspensionClass::BlockingSafe,
        }
    }

    /// Whether the contract allows this operation to suspend the caller.
    pub fn requires_suspension(&self) -> (b: bool)
        ensures
            b == (suspension_class_of(*self) is SuspensionRequired),
    {
        let c = self.suspension_class();
        match c {
            SuspensionClass::BlockingSafe => false,
            SuspensionClass::SuspensionRequired => true,
        }
    }
}

} // verus!
