use redis_facade::wire::assembled_bytes;

#[test]
fn assembled_command_is_name_then_args_then_crlf() {
    let parts = vec!["SET".to_string(), "foo".to_string(), "bar".to_string()];
    assert_eq!(assembled_bytes(&parts), b"SET foo bar\r\n".to_vec());
}

#[test]
fn assembled_command_preserves_token_order() {
    let parts = vec!["a".to_string(), "b".to_string()];
    assert_eq!(assembled_bytes(&parts), b"a b\r\n".to_vec());
    let parts = vec!["INCR".to_string(), "counter".to_string()];
    assert_eq!(assembled_bytes(&parts), b"INCR counter\r\n".to_vec());
}

#[test]
fn assembled_command_with_name_only() {
    let parts = vec!["PING".to_string()];
    assert_eq!(assembled_bytes(&parts), b"PING\r\n".to_vec());
}

#[test]
fn assembled_command_encodes_arguments_as_utf8() {
    let parts = vec!["SET".to_string(), "k".to_string(), "v\u{00e9}".to_string()];
    assert_eq!(assembled_bytes(&parts), "SET k v\u{00e9}\r\n".as_bytes().to_vec());
}
