use redis_facade::codec::Reply;
use redis_facade::codec::decode_get;
use redis_facade::codec::settle_round_trip;
use redis_facade::codec::to_decimal;
use redis_facade::errors::RedisError;

#[test]
fn decimal_zero() {
    assert_eq!(to_decimal(0).as_str(), "0");
}

#[test]
fn decimal_small_values() {
    assert_eq!(to_decimal(7).as_str(), "7");
    assert_eq!(to_decimal(42).as_str(), "42");
    assert_eq!(to_decimal(1000).as_str(), "1000");
    assert_eq!(to_decimal(90210).as_str(), "90210");
}

#[test]
fn decimal_negative_values() {
    assert_eq!(to_decimal(-1).as_str(), "-1");
    assert_eq!(to_decimal(-305).as_str(), "-305");
}

#[test]
fn decimal_extremes() {
    assert_eq!(to_decimal(i64::MAX).as_str(), "9223372036854775807");
    assert_eq!(to_decimal(i64::MIN).as_str(), "-9223372036854775808");
}

#[test]
fn get_decodes_integer_reply_as_decimal_text() {
    assert_eq!(decode_get(Ok(Reply::Int(5))), Ok("5".to_string()));
    assert_eq!(decode_get(Ok(Reply::Int(-12))), Ok("-12".to_string()));
}

#[test]
fn get_decodes_bulk_reply() {
    let reply = Reply::Bulk(b"bar".to_vec());
    assert_eq!(decode_get(Ok(reply)), Ok("bar".to_string()));
}

#[test]
fn get_decodes_empty_bulk_reply_to_empty_string() {
    assert_eq!(decode_get(Ok(Reply::Bulk(Vec::new()))), Ok(String::new()));
}

#[test]
fn get_decodes_null_reply_to_empty_string() {
    assert_eq!(decode_get(Ok(Reply::Nil)), Ok(String::new()));
}

#[test]
fn get_decodes_simple_reply() {
    let reply = Reply::Simple("OK".to_string());
    assert_eq!(decode_get(Ok(reply)), Ok("OK".to_string()));
}

#[test]
fn get_rejects_invalid_utf8_bulk_reply() {
    let reply = Reply::Bulk(vec![0xff, 0xfe]);
    assert_eq!(
        decode_get(Ok(reply)),
        Err(RedisError::ExecError("invalid UTF-8 in reply".to_string()))
    );
}

#[test]
fn get_surfaces_error_reply_verbatim() {
    let reply = Reply::Error("ERR wrong number of arguments".to_string());
    assert_eq!(
        decode_get(Ok(reply)),
        Err(RedisError::RemoteError("ERR wrong number of arguments".to_string()))
    );
}

#[test]
fn get_refuses_array_reply() {
    assert_eq!(decode_get(Ok(Reply::Array)), Err(RedisError::UnsupportedReply));
}

#[test]
fn get_surfaces_transport_failure() {
    assert_eq!(
        decode_get(Err("IO error: broken pipe".to_string())),
        Err(RedisError::ExecError("IO error: broken pipe".to_string()))
    );
}

#[test]
fn settle_counts_any_non_error_reply_as_success() {
    assert_eq!(settle_round_trip(Ok(Reply::Int(1))), Ok(true));
    assert_eq!(settle_round_trip(Ok(Reply::Simple("OK".to_string()))), Ok(true));
    assert_eq!(settle_round_trip(Ok(Reply::Bulk(b"x".to_vec()))), Ok(true));
    assert_eq!(settle_round_trip(Ok(Reply::Nil)), Ok(true));
    assert_eq!(settle_round_trip(Ok(Reply::Array)), Ok(true));
}

#[test]
fn settle_surfaces_error_reply_as_remote_error() {
    assert_eq!(
        settle_round_trip(Ok(Reply::Error("ERR readonly".to_string()))),
        Err(RedisError::RemoteError("ERR readonly".to_string()))
    );
}

#[test]
fn settle_surfaces_transport_failure_as_exec_error() {
    assert_eq!(
        settle_round_trip(Err("Parse Int error: oops".to_string())),
        Err(RedisError::ExecError("Parse Int error: oops".to_string()))
    );
}

#[test]
fn error_messages() {
    assert_eq!(RedisError::ConnectionError.message().as_str(), "Connection error");
    assert_eq!(RedisError::NotConnected.message().as_str(), "Not connected");
    assert_eq!(RedisError::AccessError.message().as_str(), "Access error");
    assert_eq!(RedisError::EmptyCommand.message().as_str(), "Empty argument list");
    assert_eq!(RedisError::UnsupportedReply.message().as_str(), "array values unsupported");
    assert_eq!(RedisError::ExecError("boom".to_string()).message().as_str(), "boom");
    assert_eq!(RedisError::RemoteError("ERR x".to_string()).message().as_str(), "ERR x");
}
