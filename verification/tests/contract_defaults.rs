use extio::Extio;
use extio::HttpMethod;
use extio::HttpRequest;
use extio::IoError;
use extio::NullBackend;
use extio::Op;

fn expect_not_supported<T, E>(r: Result<T, IoError<E>>, op: Op) {
    match r {
        Err(IoError::NotSupported(got)) => assert_eq!(got, op),
        Err(IoError::Backend(_)) => panic!("backend failure instead of the not-supported failure"),
        Ok(_) => panic!("disguised success instead of the not-supported failure"),
    }
}

#[test]
fn null_backend_declines_file_ops() {
    let mut b = NullBackend::new();
    expect_not_supported(b.read_file("notes.txt"), Op::ReadFile);
    expect_not_supported(b.write_file("notes.txt", &[1, 2, 3]), Op::WriteFile);
    expect_not_supported(b.delete_file("notes.txt"), Op::DeleteFile);
    expect_not_supported(b.list_dir("."), Op::ListDir);
}

#[test]
fn null_backend_declines_storage_ops() {
    let mut b = NullBackend::new();
    expect_not_supported(b.storage_put("key", vec![1]), Op::StoragePut);
    expect_not_supported(b.storage_get("key"), Op::StorageGet);
    expect_not_supported(b.storage_delete("key"), Op::StorageDelete);
}

#[test]
fn null_backend_declines_network_ops() {
    let mut b = NullBackend::new();
    let req = HttpRequest::new(HttpMethod::Get, "http://example.com/".to_string());
    expect_not_supported(b.http_request(req), Op::HttpRequest);
    expect_not_supported(b.tcp_send("127.0.0.1:9", &[0]), Op::TcpSend);
    expect_not_supported(b.udp_send("127.0.0.1:9", &[0]), Op::UdpSend);
    expect_not_supported(b.ws_connect("ws://example.com/"), Op::WsConnect);
    expect_not_supported(b.ws_send(&[1, 2]), Op::WsSend);
    expect_not_supported(b.ws_receive(), Op::WsReceive);
}

#[test]
fn null_backend_declines_db_process_queue_ipc() {
    let mut b = NullBackend::new();
    expect_not_supported(b.db_query("SELECT 1", &[]), Op::DbQuery);
    expect_not_supported(b.db_execute("DELETE FROM t", &[]), Op::DbExecute);
    let args = vec!["-l".to_string()];
    expect_not_supported(b.exec("ls", &args), Op::Exec);
    expect_not_supported(b.mq_publish("topic", &[1]), Op::MqPublish);
    expect_not_supported(b.mq_consume("topic"), Op::MqConsume);
    expect_not_supported(b.ipc_send("chan", &[1]), Op::IpcSend);
    expect_not_supported(b.ipc_receive("chan"), Op::IpcReceive);
}

#[test]
fn null_backend_declines_time_env_observability_crypto() {
    let mut b = NullBackend::new();
    expect_not_supported(b.sleep(5), Op::Sleep);
    expect_not_supported(b.get_env("HOME"), Op::GetEnv);
    expect_not_supported(b.set_env("HOME", "/tmp"), Op::SetEnv);
    expect_not_supported(b.log("info", "hello"), Op::Log);
    expect_not_supported(b.record_metric("requests", 1), Op::RecordMetric);
    expect_not_supported(b.get_secret("api-key"), Op::GetSecret);
    expect_not_supported(b.sign(&[1, 2, 3]), Op::Sign);
    expect_not_supported(b.verify(&[1, 2, 3], &[4, 5]), Op::Verify);
}

#[test]
fn get_env_of_missing_key_is_not_supported_not_a_real_lookup() {
    let b = NullBackend::new();
    // The default for get_env declines; it does not fall through to the
    // process environment, so even a name no environment defines yields the
    // same failure.
    expect_not_supported(b.get_env("NONEXISTENT_KEY_X"), Op::GetEnv);
}

#[test]
fn now_without_override_reads_the_real_clock() {
    let b = NullBackend::new();
    let before = std::time::SystemTime::now()
        .duration_since(std::time::UNIX_EPOCH)
        .unwrap()
        .as_millis() as u64;
    let t = b.now();
    let after = std::time::SystemTime::now()
        .duration_since(std::time::UNIX_EPOCH)
        .unwrap()
        .as_millis() as u64;
    assert!(t.millis_since_epoch >= before);
    assert!(t.millis_since_epoch <= after + 1);
}

#[test]
fn timestamps_carry_their_millisecond_count() {
    let t = extio::Timestamp::from_millis(1_700_000_000_000);
    assert_eq!(t.millis_since_epoch, 1_700_000_000_000);
}

#[test]
fn not_supported_failures_are_inspectable() {
    let mut b = NullBackend::new();
    match b.storage_get("key") {
        Err(e) => {
            assert!(e.is_not_supported());
            assert_eq!(e.declined_op(), Some(Op::StorageGet));
        }
        Ok(_) => panic!("disguised success"),
    }
    match b.ws_receive() {
        Err(e) => assert_eq!(e.declined_op(), Some(Op::WsReceive)),
        Ok(_) => panic!("disguised success"),
    }
}
