use redis_facade::client::RedisClient;
use redis_facade::client::split_address;
use redis_facade::client::take_pending;
use redis_facade::errors::RedisError;
use redis_facade::exception::RedisException;

fn failed_instance() -> RedisClient {
    let mut c = RedisClient::default();
    // Port 1 on the loopback interface refuses connections immediately.
    let r = c.__constructor("127.0.0.1:1".to_string());
    assert_eq!(r, Err(RedisError::ConnectionError));
    c
}

#[test]
fn split_address_host_and_port() {
    let r = split_address("127.0.0.1:6379");
    assert_eq!(r, Some(("127.0.0.1".to_string(), "6379".to_string())));
}

#[test]
fn split_address_takes_last_colon() {
    let r = split_address("a:b:c");
    assert_eq!(r, Some(("a:b".to_string(), "c".to_string())));
}

#[test]
fn split_address_bare_colon() {
    let r = split_address(":");
    assert_eq!(r, Some((String::new(), String::new())));
}

#[test]
fn split_address_without_colon() {
    assert_eq!(split_address("localhost"), None);
    assert_eq!(split_address(""), None);
}

#[test]
fn construct_with_unreachable_address_raises_connection_error() {
    let mut c = RedisClient::default();
    assert!(!c.is_connected());
    let r = c.__constructor("127.0.0.1:1".to_string());
    assert_eq!(r, Err(RedisError::ConnectionError));
    assert!(!c.is_connected());
    assert_eq!(c.pending_count(), 0);
}

#[test]
fn construct_with_malformed_address_raises_connection_error() {
    let mut c = RedisClient::default();
    let r = c.__constructor("no-colon-here".to_string());
    assert_eq!(r, Err(RedisError::ConnectionError));
    assert!(!c.is_connected());
}

#[test]
fn failed_instance_raises_not_connected_on_every_operation() {
    let mut c = failed_instance();
    assert_eq!(c.set_value("foo".to_string(), "bar".to_string()), Err(RedisError::NotConnected));
    assert_eq!(c.get_value("foo".to_string()), Err(RedisError::NotConnected));
    assert_eq!(c.cmd("INCR".to_string()), Err(RedisError::NotConnected));
    assert_eq!(c.pending_count(), 0);
    assert_eq!(c.execute(), Err(RedisError::NotConnected));
    assert_eq!(c.pending_count(), 0);
}

#[test]
fn cmd_on_failed_instance_appends_nothing() {
    let mut c = failed_instance();
    assert_eq!(c.cmd("SET".to_string()), Err(RedisError::NotConnected));
    assert_eq!(c.cmd("k".to_string()), Err(RedisError::NotConnected));
    assert_eq!(c.pending_count(), 0);
}

#[test]
fn flush_of_empty_buffer_raises_empty_command() {
    let mut buffer: Vec<String> = Vec::new();
    assert_eq!(take_pending(&mut buffer), Err(RedisError::EmptyCommand));
    assert!(buffer.is_empty());
}

#[test]
fn flush_returns_tokens_in_order_and_clears_the_buffer() {
    let mut buffer = vec!["INCR".to_string(), "counter".to_string()];
    let taken = take_pending(&mut buffer).unwrap();
    assert_eq!(taken, vec!["INCR".to_string(), "counter".to_string()]);
    assert!(buffer.is_empty());
}

#[test]
fn each_flush_sees_an_independent_buffer() {
    let mut buffer = vec!["INCR".to_string(), "counter".to_string()];
    assert!(take_pending(&mut buffer).is_ok());
    // The first flush cleared the buffer, so the next one starts empty.
    assert_eq!(take_pending(&mut buffer), Err(RedisError::EmptyCommand));
    buffer.push("INCR".to_string());
    buffer.push("counter".to_string());
    let taken = take_pending(&mut buffer).unwrap();
    assert_eq!(taken.len(), 2);
    assert!(buffer.is_empty());
}

#[test]
fn exception_constructor_fills_every_field() {
    let mut ex = RedisException::default();
    assert_eq!(*ex.message(), None);
    assert_eq!(ex.code(), None);
    ex.__constructor(
        Some("Connection error".to_string()),
        Some(7),
        Some("12".to_string()),
        Some("client.php".to_string()),
    );
    assert_eq!(*ex.message(), Some("Connection error".to_string()));
    assert_eq!(ex.code(), Some(7));
}

#[test]
fn exception_from_error_carries_the_message() {
    let ex = RedisException::from_error(&RedisError::EmptyCommand);
    assert_eq!(*ex.message(), Some("Empty argument list".to_string()));
    assert_eq!(ex.code(), None);
}
