use vstd::prelude::*;
use vstd::string::StrSliceExecFns;
use vstd::string::StringExecFns;

use crate::codec::Reply;
use crate::codec::decode_get;
use crate::codec::settle_round_trip;
use crate::codec::spec_decode_get;
use crate::codec::spec_settle;
use crate::errors::RedisError;
use crate::wire::assemble_command;
use crate::wire::connect;
use crate::wire::exec_command;

verus! {

/// Splits a connection address of the form `host:port` at its last colon.
///
/// Returns the host part and the port part, or nothing when the address
/// holds no colon at all.
pub fn split_address(addr: &str) -> (r: Option<(String, String)>)
    ensures
        r is None <==> (forall|k: int| 0 <= k < addr@.len() ==> addr@[k] != ':'),
        r matches Some(hp) ==> {
            &&& addr@ =~= hp.0@ + seq![':'] + hp.1@
            &&& forall|k: int| 0 <= k < hp.1@.len() ==> hp.1@[k] != ':'
        },
{
    let n = addr.unicode_len();
    let mut j: usize = n;
    while j > 0
        invariant
            j <= n,
            n == addr@.len(),
            forall|k: int| j <= k < n ==> addr@[k] != ':',
        decreases j,
    {
        j -= 1;
        if addr.get_char(j) == ':' {
            let host = addr.substring_char(0, j).to_owned();
            let port = addr.substring_char(j + 1, n).to_owned();
            proof {
                assert(addr@ =~= host@ + seq![':'] + port@);
            }
            return Some((host, port));
        }
    }
    None
}

/// The façade object: it owns one guarded connection handle, a pending
/// command buffer for the multi-step `cmd`/`execute` path, and the
/// single-shot `set_value`/`get_value` operations.
///
/// The handle is reached only through exclusive references, which realizes
/// the guard's mutual-exclusion duty: at most one command execution can be
/// in flight against it at any instant, and the handle never escapes the
/// façade. An instance whose construction failed keeps no handle; every
/// data-plane operation on it fails fast with `NotConnected`.
pub struct RedisClient {
    client: Option<redis_client::redis::RedisClient>,
    args: Vec<String>,
}

impl RedisClient {
    /// Whether this instance holds a live connection handle.
    pub closed spec fn connected(self) -> bool {
        self.client is Some
    }

    /// The pending command buffer: tokens accumulated by `cmd`, in call
    /// order, awaiting `execute`.
    pub closed spec fn pending(self) -> Seq<Seq<char>> {
        self.args.deep_view()
    }

    /// Whether this instance holds a live connection handle.
    pub fn is_connected(&self) -> (b: bool)
        ensures
            b == self.connected(),
    {
        self.client.is_some()
    }

    /// How many tokens the pending command buffer holds.
    pub fn pending_count(&self) -> (n: usize)
        ensures
            n == self.pending().len(),
    {
        self.args.len()
    }

    /// Attempts to establish the connection handle for `addr` (`host:port`,
    /// split at the last colon).
    ///
    /// On success the handle is stored and the instance is connected; on any
    /// failure — an address without a colon, or a connection the underlying
    /// client could not open — the handle is left absent, `ConnectionError`
    /// is raised, and the instance stays in its failed state for good. The
    /// pending command buffer starts out empty either way.
    pub fn __constructor(&mut self, addr: String) -> (r: Result<bool, RedisError>)
        ensures
            final(self).pending() =~= Seq::<Seq<char>>::empty(),
            r == Result::<bool, RedisError>::Ok(true) <==> final(self).connected(),
            !final(self).connected() ==> r == Result::<bool, RedisError>::Err(
                RedisError::ConnectionError,
            ),
            (forall|k: int| 0 <= k < addr@.len() ==> addr@[k] != ':') ==> r
                == Result::<bool, RedisError>::Err(RedisError::ConnectionError),
    {
        self.client = None;
        self.args.clear();
        match split_address(addr.as_str()) {
            None => Result::Err(RedisError::ConnectionError),
            Some(hp) => match connect(hp.0.as_str(), hp.1.as_str()) {
                Some(handle) => {
                    self.client = Some(handle);
                    Result::Ok(true)
                },
                None => Result::Err(RedisError::ConnectionError),
            },
        }
    }

    /// Appends `token` to the pending command buffer; purely accumulation,
    /// no execution. On a never-connected instance nothing is appended and
    /// `NotConnected` is raised.
    pub fn cmd(&mut self, token: String) -> (r: Result<bool, RedisError>)
        ensures
            final(self).connected() == old(self).connected(),
            !old(self).connected() ==> r == Result::<bool, RedisError>::Err(
                RedisError::NotConnected,
            ) && final(self).pending() == old(self).pending(),
            old(self).connected() ==> r == Result::<bool, RedisError>::Ok(true) && final(self).pending() =~= old(self).pending().push(token@),
    {
        if self.client.is_some() {
            self.args.push(token);
            proof {
                assert(self.args.deep_view() =~= old(self).args.deep_view().push(token@));
            }
            Result::Ok(true)
        } else {
            Result::Err(RedisError::NotConnected)
        }
    }

    /// Issues `SET key value` immediately and discards the reply payload,
    /// propagating only failure. The pending command buffer is untouched.
    pub fn set_value(&mut self, key: String, value: String) -> (r: Result<bool, RedisError>)
        ensures
            final(self).connected() == old(self).connected(),
            final(self).pending() == old(self).pending(),
            r == Result::<bool, RedisError>::Err(RedisError::NotConnected) <==> !old(self).connected(),
            old(self).connected() ==> exists|o: Result<Reply, String>| spec_settle(o, r),
    {
        if self.client.is_none() {
            return Result::Err(RedisError::NotConnected);
        }
        let handle = self.client.as_mut().unwrap();
        let mut parts: Vec<String> = Vec::new();
        parts.push(String::from_str("SET"));
        parts.push(key);
        parts.push(value);
        let mut c = assemble_command(&parts);
        let outcome = exec_command(handle, &mut c);
        let r = settle_round_trip(outcome);
        proof {
            assert(spec_settle(outcome, r));
            assert(!(r == Result::<bool, RedisError>::Err(RedisError::NotConnected)));
        }
        r
    }

    /// Issues `GET key` immediately and decodes the reply to a string, with
    /// an integer reply rendered in its canonical decimal form and a null
    /// bulk reply read as the empty string. The pending command buffer is
    /// untouched.
    pub fn get_value(&mut self, key: String) -> (r: Result<String, RedisError>)
        ensures
            final(self).connected() == old(self).connected(),
            final(self).pending() == old(self).pending(),
            r == Result::<String, RedisError>::Err(RedisError::NotConnected) <==> !old(self).connected(),
            old(self).connected() ==> exists|o: Result<Reply, String>| spec_decode_get(o, r),
    {
        if self.client.is_none() {
            return Result::Err(RedisError::NotConnected);
        }
        let handle = self.client.as_mut().unwrap();
        let mut parts: Vec<String> = Vec::new();
        parts.push(String::from_str("GET"));
        parts.push(key);
        let mut c = assemble_command(&parts);
        let outcome = exec_command(handle, &mut c);
        let r = decode_get(outcome);
        proof {
            assert(spec_decode_get(outcome, r));
            assert(!(r == Result::<String, RedisError>::Err(RedisError::NotConnected)));
        }
        r
    }

    /// Takes a snapshot of the pending command buffer and clears it — on
    /// every path, so no stale tokens leak into the next attempt. An empty
    /// buffer is an error, not a no-op.
    ///
    /// Then the first token names the command, the remaining tokens are its
    /// arguments in call order, and the assembled command is executed
    /// exactly once; the reply payload is discarded and only failure is
    /// propagated.
    pub fn execute(&mut self) -> (r: Result<bool, RedisError>)
        ensures
            final(self).pending() =~= Seq::<Seq<char>>::empty(),
            final(self).connected() == old(self).connected(),
            r == Result::<bool, RedisError>::Err(RedisError::NotConnected) <==> !old(self).connected(),
            old(self).connected() ==> ((r == Result::<bool, RedisError>::Err(
                RedisError::EmptyCommand,
            )) <==> old(self).pending().len() == 0),
            old(self).connected() && old(self).pending().len() >= 1 ==> exists|
                o: Result<Reply, String>,
            | spec_settle(o, r),
    {
        if self.client.is_none() {
            self.args.clear();
            return Result::Err(RedisError::NotConnected);
        }
        match take_pending(&mut self.args) {
            Result::Err(e) => Result::Err(e),
            Result::Ok(parts) => {
                let handle = self.client.as_mut().unwrap();
                let mut c = assemble_command(&parts);
                let outcome = exec_command(handle, &mut c);
                let r = settle_round_trip(outcome);
                proof {
                    assert(spec_settle(outcome, r));
                    assert(!(r == Result::<bool, RedisError>::Err(RedisError::NotConnected)));
                    assert(!(r == Result::<bool, RedisError>::Err(RedisError::EmptyCommand)));
                }
                r
            },
        }
    }
}

impl Default for RedisClient {
    /// A fresh, never-connected instance with an empty pending buffer.
    fn default() -> (r: Self)
        ensures
            !r.connected(),
            r.pending() =~= Seq::<Seq<char>>::empty(),
    {
        RedisClient { client: None, args: Vec::new() }
    }
}

/// Atomically snapshots and clears a pending command buffer.
///
/// The buffer is left empty on every path, even when it was already empty
/// or when the snapshot is refused; an empty buffer at flush time raises
/// `EmptyCommand` rather than acting as a no-op.
pub fn take_pending(buffer: &mut Vec<String>) -> (r: Result<Vec<String>, RedisError>)
    ensures
        final(buffer)@.len() == 0,
        old(buffer)@.len() == 0 <==> r == Result::<Vec<String>, RedisError>::Err(
            RedisError::EmptyCommand,
        ),
        r is Err ==> r == Result::<Vec<String>, RedisError>::Err(RedisError::EmptyCommand),
        r matches Result::Ok(parts) ==> parts.deep_view() == old(buffer).deep_view()
            && parts@.len() >= 1,
{
    let mut parts: Vec<String> = Vec::new();
    core::mem::swap(&mut parts, buffer);
    if parts.is_empty() {
        Result::Err(RedisError::EmptyCommand)
    } else {
        Result::Ok(parts)
    }
}

} // verus!
