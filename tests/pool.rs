use axum_kit::pool::{InitError, PoolError, ResourcePool};

#[test]
fn second_publish_fails_and_keeps_first_handle() {
    let mut pool: ResourcePool<u32> = ResourcePool::new();
    assert_eq!(pool.publish(7), Ok(()));
    assert_eq!(pool.publish(9), Err(PoolError::AlreadyInitialized));
    assert_eq!(pool.get(), Ok(&7));
    assert_eq!(*pool.handle(), 7);
}

#[test]
fn get_before_publish_is_not_initialized() {
    let pool: ResourcePool<String> = ResourcePool::new();
    assert!(!pool.is_ready());
    assert_eq!(pool.get(), Err(PoolError::NotInitialized));
}

#[test]
fn reads_after_publish_see_same_handle() {
    let mut pool: ResourcePool<String> = ResourcePool::new();
    pool.publish("db".to_string()).unwrap();
    for _ in 0..3 {
        assert_eq!(pool.get().unwrap(), "db");
        let _ = pool.publish("other".to_string());
    }
    assert!(pool.is_ready());
    assert_eq!(pool.handle(), "db");
}

#[test]
fn connect_failure_leaves_slot_empty() {
    let mut pool: ResourcePool<u8> = ResourcePool::new();
    match pool.publish_connected(Err("connection refused".to_string())) {
        Err(InitError::ConnectFailed(c)) => assert_eq!(c, "connection refused"),
        other => panic!("unexpected {:?}", other),
    }
    assert!(!pool.is_ready());
    assert!(pool.publish_connected(Ok(3)).is_ok());
    assert!(matches!(pool.publish_connected(Ok(4)), Err(InitError::AlreadyInitialized)));
    assert_eq!(*pool.handle(), 3);
    assert!(matches!(
        pool.publish_connected(Err("unreachable".to_string())),
        Err(InitError::AlreadyInitialized)
    ));
    assert_eq!(*pool.handle(), 3);
}
