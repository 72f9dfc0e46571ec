use extio::Op;
use extio::SuspensionClass;

#[test]
fn file_time_env_observability_crypto_ops_are_blocking_safe() {
    let blocking = [
        Op::ReadFile,
        Op::WriteFile,
        Op::DeleteFile,
        Op::ListDir,
        Op::Now,
        Op::GetEnv,
        Op::SetEnv,
        Op::Log,
        Op::RecordMetric,
        Op::GetSecret,
        Op::Sign,
        Op::Verify,
    ];
    for op in blocking {
        assert_eq!(op.suspension_class(), SuspensionClass::BlockingSafe);
        assert!(!op.requires_suspension());
    }
}

#[test]
fn storage_network_db_process_queue_ipc_sleep_ops_require_suspension() {
    let suspending = [
        Op::StoragePut,
        Op::StorageGet,
        Op::StorageDelete,
        Op::HttpRequest,
        Op::TcpSend,
        Op::UdpSend,
        Op::WsConnect,
        Op::WsSend,
        Op::WsReceive,
        Op::DbQuery,
        Op::DbExecute,
        Op::Exec,
        Op::MqPublish,
        Op::MqConsume,
        Op::IpcSend,
        Op::IpcReceive,
        Op::Sleep,
    ];
    for op in suspending {
        assert_eq!(op.suspension_class(), SuspensionClass::SuspensionRequired);
        assert!(op.requires_suspension());
    }
}

#[test]
fn the_two_classes_cover_all_operations() {
    // Twelve blocking-safe and seventeen suspension-required operations make
    // up the whole surface.
    assert_eq!(Op::HttpRequest.suspension_class(), SuspensionClass::SuspensionRequired);
    assert_eq!(Op::Now.suspension_class(), SuspensionClass::BlockingSafe);
    assert_ne!(
        SuspensionClass::BlockingSafe,
        SuspensionClass::SuspensionRequired
    );
}
