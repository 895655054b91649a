use session_engine::registry::Registry;
use session_engine::transfer::{
    begin_transfer, end_transfer, sftp_cancel, sftp_pause, sftp_resume, transfer_speed, Direction,
    Progress, TransferAction, TransferMachine, TransferState, DOWNLOAD_CHUNK, PAUSE_POLL_MILLIS,
    UPLOAD_CHUNK,
};

#[test]
fn pause_resume_cancel_on_unknown_id_are_no_ops() {
    let mut reg: Registry<TransferState> = Registry::new();
    assert!(sftp_pause(&mut reg, "missing").is_ok());
    assert!(sftp_resume(&mut reg, "missing").is_ok());
    assert!(sftp_cancel(&mut reg, "missing").is_ok());
    assert!(!reg.contains("missing"));
}

#[test]
fn control_requests_set_the_flag_of_a_registered_transfer() {
    let mut reg: Registry<TransferState> = Registry::new();
    begin_transfer(&mut reg, "t1".to_string());
    assert_eq!(reg.get("t1"), Some(&TransferState::Running));
    sftp_pause(&mut reg, "t1").unwrap();
    assert_eq!(reg.get("t1"), Some(&TransferState::Paused));
    sftp_resume(&mut reg, "t1").unwrap();
    assert_eq!(reg.get("t1"), Some(&TransferState::Running));
    sftp_cancel(&mut reg, "t1").unwrap();
    assert_eq!(reg.get("t1"), Some(&TransferState::Cancelled));
    end_transfer(&mut reg, "t1");
    assert!(!reg.contains("t1"));
    assert!(sftp_pause(&mut reg, "t1").is_ok());
    assert!(!reg.contains("t1"));
}

#[test]
fn upload_of_ten_mib_reports_every_chunk() {
    let total: u64 = 10 * 1024 * 1024;
    let mut m = TransferMachine::new(Direction::Upload, total);
    let mut reports: Vec<Progress> = Vec::new();
    let mut written: u64 = 0;
    loop {
        match m.next_step(TransferState::Running) {
            TransferAction::Move(n) => {
                written += n as u64;
                reports.push(m.record_chunk(n, 1).unwrap());
            }
            TransferAction::Complete => break,
            other => panic!("unexpected action {:?}", other),
        }
    }
    assert!(reports.len() >= 160);
    assert_eq!(reports.len(), 160);
    for w in reports.windows(2) {
        assert!(w[0].bytes_transferred <= w[1].bytes_transferred);
    }
    let last = reports.last().unwrap();
    assert_eq!(last.bytes_transferred, total);
    assert_eq!(last.total_bytes, total);
    assert_eq!(written, total);
    assert_eq!(m.bytes_transferred(), total);
}

#[test]
fn upload_last_chunk_is_the_remainder() {
    let mut m = TransferMachine::new(Direction::Upload, (UPLOAD_CHUNK as u64) + 10);
    assert_eq!(m.next_step(TransferState::Running), TransferAction::Move(UPLOAD_CHUNK));
    m.record_chunk(UPLOAD_CHUNK, 0);
    assert_eq!(m.next_step(TransferState::Running), TransferAction::Move(10));
    let p = m.record_chunk(10, 2).unwrap();
    assert_eq!(p.bytes_transferred, 65546);
    assert_eq!(p.speed, 32773);
    assert_eq!(m.next_step(TransferState::Running), TransferAction::Complete);
}

#[test]
fn empty_upload_completes_without_progress() {
    let mut m = TransferMachine::new(Direction::Upload, 0);
    assert_eq!(m.next_step(TransferState::Running), TransferAction::Complete);
    assert!(m.is_stopped());
}

#[test]
fn pause_moves_nothing_until_resumed() {
    let mut m = TransferMachine::new(Direction::Download, 500);
    assert_eq!(m.next_step(TransferState::Running), TransferAction::Move(DOWNLOAD_CHUNK));
    m.record_chunk(300, 1);
    for _ in 0..5 {
        assert_eq!(m.next_step(TransferState::Paused), TransferAction::Wait(PAUSE_POLL_MILLIS));
        assert_eq!(m.bytes_transferred(), 300);
    }
    assert_eq!(m.next_step(TransferState::Running), TransferAction::Move(DOWNLOAD_CHUNK));
    let p = m.record_chunk(200, 1).unwrap();
    assert_eq!(p.bytes_transferred, 500);
}

#[test]
fn download_cancelled_after_first_progress_then_restarted_fresh() {
    let mut reg: Registry<TransferState> = Registry::new();
    begin_transfer(&mut reg, "dl".to_string());
    let mut m = TransferMachine::new(Direction::Download, 1_000_000);
    assert_eq!(m.next_step(*reg.get("dl").unwrap()), TransferAction::Move(DOWNLOAD_CHUNK));
    let first = m.record_chunk(DOWNLOAD_CHUNK, 1).unwrap();
    assert_eq!(first.bytes_transferred, DOWNLOAD_CHUNK as u64);
    sftp_cancel(&mut reg, "dl").unwrap();
    assert_eq!(m.next_step(*reg.get("dl").unwrap()), TransferAction::Abort);
    assert!(m.is_stopped());
    end_transfer(&mut reg, "dl");
    assert!(!reg.contains("dl"));
    begin_transfer(&mut reg, "dl".to_string());
    assert_eq!(reg.get("dl"), Some(&TransferState::Running));
    let mut again = TransferMachine::new(Direction::Download, 1_000_000);
    assert_eq!(again.bytes_transferred(), 0);
    assert_eq!(again.next_step(*reg.get("dl").unwrap()), TransferAction::Move(DOWNLOAD_CHUNK));
}

#[test]
fn download_ends_on_empty_read() {
    let mut m = TransferMachine::new(Direction::Download, 0);
    assert_eq!(m.next_step(TransferState::Running), TransferAction::Move(DOWNLOAD_CHUNK));
    assert_eq!(m.record_chunk(0, 3), None);
    assert!(m.is_stopped());
    assert_eq!(m.total_bytes(), 0);
}

#[test]
fn speed_counts_at_least_one_second() {
    assert_eq!(transfer_speed(1000, 0), 1000);
    assert_eq!(transfer_speed(1000, 1), 1000);
    assert_eq!(transfer_speed(1000, 3), 333);
}

#[test]
fn registry_insert_replaces_and_remove_returns_value() {
    let mut reg: Registry<u32> = Registry::new();
    reg.insert("a".to_string(), 1);
    reg.insert("b".to_string(), 2);
    reg.insert("a".to_string(), 3);
    assert_eq!(reg.get("a"), Some(&3));
    assert_eq!(reg.remove("a"), Some(3));
    assert_eq!(reg.remove("a"), None);
    assert_eq!(reg.get("b"), Some(&2));
}
