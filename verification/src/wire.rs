use vstd::prelude::*;
use vstd::utf8::encode_utf8;

use redis_client::commands::RedisCommand;
use redis_client::errors::RedisError as WireError;
use redis_client::redis::RedisClient as WireClient;
use redis_client::results::RedisResult;

use crate::codec::Reply;

verus! {

#[verifier::external_type_specification]
#[verifier::external_body]
pub struct ExWireClient(WireClient);

#[verifier::external_type_specification]
#[verifier::external_body]
pub struct ExRedisCommand(RedisCommand);

/// The bytes accumulated so far in a command under assembly.
pub uninterp spec fn cmd_bytes(c: RedisCommand) -> Seq<u8>;

/// Relies on `redis_client::redis::RedisClient::new`: opens one TCP
/// connection to `host:port`, or fails. Nothing is promised of the outcome,
/// which depends on the network.
#[verifier::external_body]
pub(crate) fn connect(host: &str, port: &str) -> (r: Option<WireClient>) {
    let h: &'static str = Box::leak(host.to_owned().into_boxed_str());
    let p: &'static str = Box::leak(port.to_owned().into_boxed_str());
    WireClient::new(h, p).ok()
}

/// Relies on `RedisCommand::new`: a fresh command starts with an empty byte
/// buffer.
#[verifier::external_body]
pub(crate) fn command_new() -> (c: RedisCommand)
    ensures
        cmd_bytes(c) == Seq::<u8>::empty(),
{
    RedisCommand::new()
}

/// Relies on `RedisCommand::add_cmd`: it appends the UTF-8 bytes of the
/// command name to the buffer.
#[verifier::external_body]
pub(crate) fn command_add_cmd(c: &mut RedisCommand, name: &str)
    ensures
        cmd_bytes(*final(c)) == cmd_bytes(*old(c)) + encode_utf8(name@),
{
    c.add_cmd(name);
}

/// Relies on `RedisCommand::add_arg`: it appends one space (byte 0x20) and
/// then the UTF-8 bytes of the argument to the buffer.
#[verifier::external_body]
pub(crate) fn command_add_arg(c: &mut RedisCommand, arg: &str)
    ensures
        cmd_bytes(*final(c)) == cmd_bytes(*old(c)) + seq![32u8] + encode_utf8(arg@),
{
    c.add_arg(arg);
}

/// Relies on `RedisCommand::end`: it terminates the command by appending CR
/// LF (bytes 13, 10) to the buffer.
#[verifier::external_body]
pub(crate) fn command_end(c: &mut RedisCommand)
    ensures
        cmd_bytes(*final(c)) == cmd_bytes(*old(c)) + seq![13u8, 10u8],
{
    c.end();
}

/// Relies on `RedisClient::exec_redis_command`: it writes the assembled
/// bytes to the connection, reads back one reply, and leaves the command
/// buffer unchanged. The reply depends on the store, so nothing is promised
/// of it; each variant of the client's tagged result is carried over one for
/// one, with an error reply from the store surfaced as `Reply::Error` and
/// any transport or protocol failure rendered as the `Err` message. The
/// underlying client may panic if the peer answers with a malformed stream;
/// that lies outside this contract.
#[verifier::external_body]
pub(crate) fn exec_command(client: &mut WireClient, c: &mut RedisCommand) -> (r: Result<
    Reply,
    String,
>)
    ensures
        cmd_bytes(*final(c)) == cmd_bytes(*old(c)),
{
    match client.exec_redis_command(c) {
        Ok(RedisResult::Int(i)) => Ok(Reply::Int(i)),
        Ok(RedisResult::Bytes(b)) => Ok(Reply::Bulk(b)),
        Ok(RedisResult::String(s)) => Ok(Reply::Simple(s)),
        Ok(RedisResult::Nil) => Ok(Reply::Nil),
        Ok(RedisResult::Array(_)) => Ok(Reply::Array),
        Err(WireError::Response(m)) => Ok(Reply::Error(m)),
        Err(e) => Err(format!("{}", e)),
    }
}

/// Relies on the `From<&mut RedisCommand> for Vec<u8>` impl: it hands out a
/// copy of the accumulated bytes and leaves the buffer unchanged.
#[verifier::external_body]
pub(crate) fn command_bytes(c: &mut RedisCommand) -> (r: Vec<u8>)
    ensures
        r@ == cmd_bytes(*old(c)),
        cmd_bytes(*final(c)) == cmd_bytes(*old(c)),
{
    Vec::<u8>::from(c)
}

/// The wire block for one argument: a separating space, then the argument's
/// UTF-8 bytes.
pub open spec fn arg_blocks(args: Seq<Seq<char>>) -> Seq<u8>
    decreases args.len(),
{
    if args.len() == 0 {
        Seq::<u8>::empty()
    } else {
        seq![32u8] + encode_utf8(args[0]) + arg_blocks(args.drop_first())
    }
}

/// The full wire form of an assembled command: the name's UTF-8 bytes, one
/// space-prefixed block per argument in call order, and the CR LF
/// terminator.
pub open spec fn wire_encoding(parts: Seq<Seq<char>>) -> Seq<u8>
    recommends
        parts.len() >= 1,
{
    encode_utf8(parts[0]) + arg_blocks(parts.drop_first()) + seq![13u8, 10u8]
}

proof fn lemma_arg_blocks_push(args: Seq<Seq<char>>, a: Seq<char>)
    ensures
        arg_blocks(args.push(a)) =~= arg_blocks(args) + seq![32u8] + encode_utf8(a),
    decreases args.len(),
{
    if args.len() == 0 {
        assert(args.push(a)[0] == a);
        assert(args.push(a).drop_first() =~= Seq::<Seq<char>>::empty());
        assert(arg_blocks(args.push(a)) == seq![32u8] + encode_utf8(a) + arg_blocks(
            Seq::<Seq<char>>::empty(),
        ));
        assert(arg_blocks(Seq::<Seq<char>>::empty()) == Seq::<u8>::empty());
        assert(arg_blocks(args) == Seq::<u8>::empty());
        assert(seq![32u8] + encode_utf8(a) + Seq::<u8>::empty() =~= Seq::<u8>::empty() + seq![32u8]
            + encode_utf8(a));
    } else {
        assert(args.push(a)[0] == args[0]);
        assert(args.push(a).drop_first() =~= args.drop_first().push(a));
        assert(arg_blocks(args.push(a)) == seq![32u8] + encode_utf8(args[0]) + arg_blocks(
            args.drop_first().push(a),
        ));
        lemma_arg_blocks_push(args.drop_first(), a);
        assert(arg_blocks(args) == seq![32u8] + encode_utf8(args[0]) + arg_blocks(
            args.drop_first(),
        ));
        assert(seq![32u8] + encode_utf8(args[0]) + (arg_blocks(args.drop_first()) + seq![32u8]
            + encode_utf8(a)) =~= (seq![32u8] + encode_utf8(args[0]) + arg_blocks(
            args.drop_first(),
        )) + seq![32u8] + encode_utf8(a));
    }
}

/// Assembles a command from its parts: the first element is the command
/// name, the rest are its arguments, kept exactly in the order supplied.
pub fn assemble_command(parts: &Vec<String>) -> (c: RedisCommand)
    requires
        parts@.len() >= 1,
    ensures
        cmd_bytes(c) == wire_encoding(parts.deep_view()),
{
    let ghost pd: Seq<Seq<char>> = parts.deep_view();
    let mut c = command_new();
    command_add_cmd(&mut c, parts[0].as_str());
    proof {
        assert(pd[0] == parts@[0]@);
        assert(cmd_bytes(c) =~= encode_utf8(pd[0]) + arg_blocks(pd.subrange(1, 1)));
    }
    let mut i: usize = 1;
    while i < parts.len()
        invariant
            1 <= i <= pd.len(),
            pd == parts.deep_view(),
            pd.len() == parts@.len(),
            cmd_bytes(c) == encode_utf8(pd[0]) + arg_blocks(pd.subrange(1, i as int)),
        decreases pd.len() - i,
    {
        command_add_arg(&mut c, parts[i].as_str());
        proof {
            assert(pd[i as int] == parts@[i as int]@);
            assert(pd.subrange(1, i + 1) =~= pd.subrange(1, i as int).push(pd[i as int]));
            lemma_arg_blocks_push(pd.subrange(1, i as int), pd[i as int]);
            assert(cmd_bytes(c) =~= encode_utf8(pd[0]) + arg_blocks(pd.subrange(1, i + 1)));
        }
        i += 1;
    }
    command_end(&mut c);
    proof {
        assert(pd.subrange(1, pd.len() as int) =~= pd.drop_first());
        assert(cmd_bytes(c) =~= wire_encoding(pd));
    }
    c
}

/// The exact bytes that `assemble_command` puts on the wire for `parts`:
/// the command name, each argument behind one separating space, in call
/// order, and the CR LF terminator.
pub fn assembled_bytes(parts: &Vec<String>) -> (r: Vec<u8>)
    requires
        parts@.len() >= 1,
    ensures
        r@ == wire_encoding(parts.deep_view()),
{
    let mut c = assemble_command(parts);
    command_bytes(&mut c)
}

/// The buffer contents after appending each token of `ts`, in order, to `b`
/// — the effect of one `cmd` call per token.
pub open spec fn pushed_all(b: Seq<Seq<char>>, ts: Seq<Seq<char>>) -> Seq<Seq<char>>
    decreases ts.len(),
{
    if ts.len() == 0 {
        b
    } else {
        pushed_all(b.push(ts[0]), ts.drop_first())
    }
}

proof fn lemma_pushed_all_general(b: Seq<Seq<char>>, ts: Seq<Seq<char>>)
    ensures
        pushed_all(b, ts) =~= b + ts,
    decreases ts.len(),
{
    if ts.len() > 0 {
        lemma_pushed_all_general(b.push(ts[0]), ts.drop_first());
        assert(b.push(ts[0]) + ts.drop_first() =~= b + ts);
    }
}

/// Law: chained `cmd` calls preserve order. Appending any sequence of
/// tokens, one `cmd` call each, to an empty buffer yields exactly that
/// sequence; and the command then issued for a non-empty buffer carries the
/// first token as its name and the remaining tokens, in order, as its
/// arguments.
pub proof fn lemma_cmd_chain_order(ts: Seq<Seq<char>>)
    ensures
        pushed_all(Seq::<Seq<char>>::empty(), ts) == ts,
        ts.len() >= 1 ==> wire_encoding(ts) == encode_utf8(ts[0]) + arg_blocks(ts.drop_first())
            + seq![13u8, 10u8],
{
    lemma_pushed_all_general(Seq::<Seq<char>>::empty(), ts);
    assert(Seq::<Seq<char>>::empty() + ts =~= ts);
}

/// Law, two-token form: `cmd(a)` then `cmd(b)` then `execute` issues a
/// command whose name is `a` and whose argument list is exactly `[b]`.
pub proof fn lemma_two_token_command(a: Seq<char>, b: Seq<char>)
    ensures
        pushed_all(Seq::<Seq<char>>::empty(), seq![a, b]) == seq![a, b],
        seq![a, b][0] == a,
        seq![a, b].drop_first() =~= seq![b],
        wire_encoding(seq![a, b]) == encode_utf8(a) + seq![32u8] + encode_utf8(b) + seq![
            13u8,
            10u8,
        ],
{
    lemma_cmd_chain_order(seq![a, b]);
    assert(seq![a, b].drop_first() =~= seq![b]);
    assert(seq![b].drop_first() =~= Seq::<Seq<char>>::empty());
    assert(seq![b][0] == b);
    assert(arg_blocks(seq![b]) == seq![32u8] + encode_utf8(b) + arg_blocks(
        Seq::<Seq<char>>::empty(),
    ));
    assert(arg_blocks(Seq::<Seq<char>>::empty()) == Seq::<u8>::empty());
    assert(arg_blocks(seq![b]) =~= seq![32u8] + encode_utf8(b));
    assert(encode_utf8(a) + (seq![32u8] + encode_utf8(b)) + seq![13u8, 10u8] =~= encode_utf8(a)
        + seq![32u8] + encode_utf8(b) + seq![13u8, 10u8]);
}

} // verus!
