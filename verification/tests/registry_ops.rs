use pty_core::errors::SessionError;
use pty_core::pump::Phase;
use pty_core::registry::Registry;
use pty_core::session::{kill_pty, resize_pty, spawn_pty, write_pty};

#[test]
fn second_spawn_with_live_identifier_is_a_collision() {
    let mut reg: Registry<u64> = Registry::new();
    let id = "s1".to_string();
    let first = spawn_pty(&mut reg, &id, 1);
    assert!(first.is_ok());
    let second = spawn_pty(&mut reg, &id, 2);
    match second {
        Ok(_) => panic!("second spawn under a live identifier must fail"),
        Err(handle) => assert_eq!(handle, 2),
    }
    // the first registration is untouched
    assert!(reg.contains_key(&id));
    assert_eq!(kill_pty(&mut reg, &id).unwrap(), 1);
}

#[test]
fn spawn_after_retirement_succeeds() {
    let mut reg: Registry<u64> = Registry::new();
    let id = "s1".to_string();
    assert!(spawn_pty(&mut reg, &id, 1).is_ok());
    assert_eq!(kill_pty(&mut reg, &id).unwrap(), 1);
    let again = spawn_pty(&mut reg, &id, 3);
    let pump = again.unwrap();
    assert_eq!(pump.current_phase(), Phase::Reading);
    assert!(reg.contains_key(&id));
}

#[test]
fn kill_twice_reports_not_found_afterwards() {
    let mut reg: Registry<u64> = Registry::new();
    let id = "s1".to_string();
    assert!(spawn_pty(&mut reg, &id, 1).is_ok());
    assert_eq!(kill_pty(&mut reg, &id).unwrap(), 1);
    assert!(matches!(kill_pty(&mut reg, &id), Err(SessionError::NotFound)));
    assert!(matches!(kill_pty(&mut reg, &id), Err(SessionError::NotFound)));
}

#[test]
fn write_on_unknown_identifier_is_not_found() {
    let mut reg: Registry<u64> = Registry::new();
    let id = "never-spawned".to_string();
    let r = write_pty(&mut reg, &id);
    assert!(matches!(r, Err(SessionError::NotFound)));
}

#[test]
fn resize_on_unknown_identifier_is_not_found() {
    let reg: Registry<u64> = Registry::new();
    let ghost_id = "ghost".to_string();
    let r = resize_pty(&reg, &ghost_id, 80, 24);
    assert!(matches!(r, Err(SessionError::NotFound)));
}

#[test]
fn write_on_retired_identifier_is_not_found() {
    let mut reg: Registry<u64> = Registry::new();
    let id = "s1".to_string();
    assert!(spawn_pty(&mut reg, &id, 1).is_ok());
    assert_eq!(kill_pty(&mut reg, &id).unwrap(), 1);
    assert!(matches!(write_pty(&mut reg, &id), Err(SessionError::NotFound)));
}

#[test]
fn write_mutates_the_registered_handle_in_place() {
    let mut reg: Registry<u64> = Registry::new();
    let id = "s1".to_string();
    assert!(spawn_pty(&mut reg, &id, 1).is_ok());
    {
        let h = write_pty(&mut reg, &id).unwrap();
        *h = 9;
    }
    let (h, g) = resize_pty(&reg, &id, 120, 50).unwrap();
    assert_eq!(*h, 9);
    assert_eq!((g.cols, g.rows), (120, 50));
}

#[test]
fn registry_insert_get_remove() {
    let mut reg: Registry<u64> = Registry::new();
    let a = "a".to_string();
    let b = "b".to_string();
    assert!(!reg.contains_key(&a));
    assert!(reg.try_insert(a.clone(), 10).is_ok());
    assert!(reg.try_insert(b.clone(), 20).is_ok());
    assert_eq!(reg.try_insert(a.clone(), 11), Err(11));
    assert_eq!(reg.get(&a), Some(&10));
    assert_eq!(reg.get(&b), Some(&20));
    if let Some(h) = reg.get_mut(&b) {
        *h = 21;
    }
    assert_eq!(reg.remove(&b), Some(21));
    assert_eq!(reg.remove(&b), None);
    assert_eq!(reg.get(&b), None);
    assert_eq!(reg.remove(&a), Some(10));
}

#[test]
fn error_messages() {
    assert_eq!(SessionError::NotFound.message(), "Session not found");
    assert_eq!(SessionError::Collision.message(), "Session already exists");
    assert_eq!(SessionError::Alloc("open failed".to_string()).message(), "open failed");
    assert_eq!(SessionError::Io("flush failed".to_string()).message(), "flush failed");
}
