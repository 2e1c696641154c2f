use warp_code::session::{
    Geometry, PumpInput, SessionError, SessionStatus, TerminalEvent, TerminalState,
};

fn geom(rows: u16, cols: u16) -> Geometry {
    Geometry { rows, cols }
}

#[test]
fn create_registers_running_session() {
    let mut t = TerminalState::new();
    assert_eq!(t.create_session(Ok(4242), geom(24, 80)), Ok(4242));
    assert!(t.contains(4242));
    let s = t.session(4242).unwrap();
    assert_eq!(s.status, SessionStatus::Running);
    assert_eq!(s.geometry, geom(24, 80));
    assert_eq!(t.len(), 1);
}

#[test]
fn spawn_failure_registers_nothing() {
    let mut t = TerminalState::new();
    let r = t.create_session(Err("no pty".to_string()), geom(24, 80));
    assert_eq!(r, Err(SessionError::SpawnError("no pty".to_string())));
    assert_eq!(t.len(), 0);
}

#[test]
fn duplicate_identifier_is_refused() {
    let mut t = TerminalState::new();
    t.create_session(Ok(7), geom(24, 80)).unwrap();
    assert_eq!(t.create_session(Ok(7), geom(30, 100)), Err(SessionError::DuplicateId));
    assert_eq!(t.session(7).unwrap().geometry, geom(24, 80));
}

#[test]
fn created_identifiers_are_distinct() {
    let mut t = TerminalState::new();
    let mut ids = Vec::new();
    for pid in [10u32, 11, 12, 13] {
        ids.push(t.create_session(Ok(pid), geom(24, 80)).unwrap());
    }
    for i in 0..ids.len() {
        for j in 0..ids.len() {
            if i != j {
                assert_ne!(ids[i], ids[j]);
            }
        }
    }
    assert_eq!(t.len(), 4);
}

#[test]
fn writes_to_running_session_succeed() {
    let mut t = TerminalState::new();
    t.create_session(Ok(1), geom(24, 80)).unwrap();
    assert_eq!(t.write(1, &b"echo ".to_vec()), Ok(()));
    assert_eq!(t.write(1, &b"hi\n".to_vec()), Ok(()));
}

#[test]
fn write_to_unknown_session_is_not_found() {
    let mut t = TerminalState::new();
    assert_eq!(t.write(99, &b"x".to_vec()), Err(SessionError::NotFound));
}

#[test]
fn resize_records_geometry() {
    let mut t = TerminalState::new();
    t.create_session(Ok(3), geom(24, 80)).unwrap();
    assert_eq!(t.resize(3, 40, 120), Ok(()));
    assert_eq!(t.session(3).unwrap().geometry, geom(40, 120));
    assert_eq!(t.resize(3, 40, 120), Ok(()));
    assert_eq!(t.session(3).unwrap().geometry, geom(40, 120));
}

#[test]
fn resize_of_unknown_session_is_not_found() {
    let mut t = TerminalState::new();
    assert_eq!(t.resize(5, 40, 120), Err(SessionError::NotFound));
}

#[test]
fn kill_then_write_or_resize_is_not_found() {
    let mut t = TerminalState::new();
    t.create_session(Ok(8), geom(24, 80)).unwrap();
    assert_eq!(t.kill(8), Ok(Some(TerminalEvent::Killed { id: 8 })));
    assert_eq!(t.write(8, &b"ls\n".to_vec()), Err(SessionError::NotFound));
    assert_eq!(t.resize(8, 40, 120), Err(SessionError::NotFound));
    assert_eq!(t.kill(8), Err(SessionError::NotFound));
}

#[test]
fn pump_delivers_decoded_output() {
    let mut t = TerminalState::new();
    t.create_session(Ok(2), geom(24, 80)).unwrap();
    let a = t.pump_step(2, PumpInput::Chunk(b"hello\r\n".to_vec()));
    assert!(a.keep_running);
    assert_eq!(a.event, Some(TerminalEvent::Output { id: 2, data: "hello\r\n".to_string() }));
}

#[test]
fn pump_reports_undecodable_chunk_and_goes_on() {
    let mut t = TerminalState::new();
    t.create_session(Ok(2), geom(24, 80)).unwrap();
    let a = t.pump_step(2, PumpInput::Chunk(vec![0x66, 0xff, 0xfe]));
    assert!(a.keep_running);
    assert_eq!(a.event, Some(TerminalEvent::DecodeError { id: 2 }));
    let b = t.pump_step(2, PumpInput::Chunk("é".as_bytes().to_vec()));
    assert_eq!(b.event, Some(TerminalEvent::Output { id: 2, data: "é".to_string() }));
}

#[test]
fn pump_ignores_empty_chunk() {
    let mut t = TerminalState::new();
    t.create_session(Ok(2), geom(24, 80)).unwrap();
    let a = t.pump_step(2, PumpInput::Chunk(Vec::new()));
    assert!(a.keep_running);
    assert_eq!(a.event, None);
}

#[test]
fn exit_ends_once_and_closes_session() {
    let mut t = TerminalState::new();
    t.create_session(Ok(6), geom(24, 80)).unwrap();
    t.write(6, &b"exit\n".to_vec()).unwrap();
    let a = t.pump_step(6, PumpInput::Closed);
    assert_eq!(a.event, Some(TerminalEvent::Ended { id: 6 }));
    assert!(!a.keep_running);
    assert_eq!(t.session(6).unwrap().status, SessionStatus::Exited);
    let b = t.pump_step(6, PumpInput::Closed);
    assert_eq!(b.event, None);
    assert_eq!(t.write(6, &b"ls\n".to_vec()), Err(SessionError::SessionClosed));
    assert_eq!(t.resize(6, 40, 120), Err(SessionError::SessionClosed));
    assert_eq!(t.kill(6), Ok(None));
    assert_eq!(t.write(6, &b"ls\n".to_vec()), Err(SessionError::NotFound));
}

#[test]
fn pump_of_killed_session_stops_silently() {
    let mut t = TerminalState::new();
    t.create_session(Ok(9), geom(24, 80)).unwrap();
    t.kill(9).unwrap();
    let a = t.pump_step(9, PumpInput::Chunk(b"late".to_vec()));
    assert_eq!(a.event, None);
    assert!(!a.keep_running);
}

#[test]
fn create_many_then_kill_all_empties_table() {
    let mut t = TerminalState::new();
    let n = 16u32;
    let mut ids = Vec::new();
    for k in 0..n {
        ids.push(t.create_session(Ok(1000 + k), geom(24, 80)).unwrap());
    }
    let mut events = Vec::new();
    for id in &ids {
        if let Some(e) = t.kill(*id).unwrap() {
            events.push(e);
        }
    }
    assert_eq!(ids.len(), n as usize);
    assert_eq!(events.len(), n as usize);
    for (id, e) in ids.iter().zip(events.iter()) {
        assert_eq!(*e, TerminalEvent::Killed { id: *id });
    }
    assert_eq!(t.len(), 0);
}

#[test]
fn standard_geometry_is_24_by_80() {
    assert_eq!(Geometry::standard(), geom(24, 80));
}
