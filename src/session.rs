//! The per-connection decisions of the remote-control server.
//!
//! A connection first announces the configuration, then serves one request
//! at a time: a scan or lock request starts the corresponding operation,
//! whose outcome (or the refusal of its argument vector) is answered with a
//! response; a text that is not a protocol message is answered with a
//! failure; any other message is ignored. The connection stays open.
//! The caller performs each action and feeds back what happened.

use vstd::prelude::*;
use crate::lock::{flips, lock_actions_of, LockAction};
use crate::packet::{
    failure_message, ConfigNotifyData, LockReqData, LockRspData, Packet, ScanRspData,
};

verus! {

broadcast use vstd::string::group_string_axioms;

/// Where a connection stands.
#[derive(Clone, Copy, Debug, PartialEq, Eq, Structural)]
pub enum ConnState {
    /// Waiting for a request.
    Idle,
    /// A scan request is being carried out.
    Scanning,
    /// A lock request is being carried out.
    Locking,
    /// The connection is over.
    Closed,
}

/// What happened on a connection.
#[derive(Debug)]
pub enum Event {
    /// A message arrived.
    Received(Packet),
    /// A text arrived that is not a protocol message; why it could not be
    /// read.
    Malformed(String),
    /// The argument vector of the pending request was refused, with this
    /// message.
    ArgvRejected(String),
    /// The pending scan ended: its export payload, or its failure's message.
    ScanDone(Result<String, String>),
    /// The pending lock run ended, or failed with this message.
    LockDone(Result<(), String>),
    /// Reading or writing the connection failed.
    ConnectionLost,
}

/// What the caller must do next.
#[derive(Clone, Debug)]
pub enum Action {
    /// Send this message.
    Send(Packet),
    /// Parse this argument vector and run a scan with it.
    RunScan(Vec<String>),
    /// Parse this argument vector and run these lock actions with it.
    RunLock(Vec<String>, Vec<LockAction>),
    /// Nothing to send; the message was unexpected.
    Ignore,
    /// Close the connection.
    Close,
}

/// The message sent when a lock request's specification cannot be read.
pub open spec fn bad_spec_message() -> Seq<char> {
    "invalid lock specification"@
}

/// The decision for a lock request received while idle.
pub open spec fn lock_request_step(d: LockReqData, s: ConnState, a: Action) -> bool {
    match d.lock_json {
        Some(j) => match lock_actions_of(j@) {
            Some(v) => {
                &&& s == ConnState::Locking
                &&& a matches Action::RunLock(argv, acts) && argv == d.argv && acts@ == v
            },
            None => {
                &&& s == ConnState::Idle
                &&& a matches Action::Send(Packet::LockRsp(r)) && !r.success && r.message@
                    == bad_spec_message()
            },
        },
        None => {
            &&& s == ConnState::Locking
            &&& a matches Action::RunLock(argv, acts) && argv == d.argv && acts@ == match d.indices {
                Some(ix) => flips(ix@),
                None => Seq::empty(),
            }
        },
    }
}

/// `r` answers a scan that ended with `res`.
pub open spec fn scan_reply(r: ScanRspData, res: Result<String, String>) -> bool {
    match res {
        Ok(json) => r.success && r.message@.len() == 0 && r.json@ == json@,
        Err(m) => !r.success && r.message@ == failure_message(m@) && r.json@.len() == 0,
    }
}

/// `r` answers a lock run that ended with `res`.
pub open spec fn lock_reply(r: LockRspData, res: Result<(), String>) -> bool {
    match res {
        Ok(()) => r.success && r.message@.len() == 0,
        Err(m) => !r.success && r.message@ == failure_message(m@),
    }
}

/// From state `s`, event `e` leads to state `s2` and action `a`.
pub open spec fn stepped(s: ConnState, e: Event, s2: ConnState, a: Action) -> bool {
    if s == ConnState::Closed {
        s2 == ConnState::Closed && a is Close
    } else {
        match e {
            Event::ConnectionLost => s2 == ConnState::Closed && a is Close,
            Event::Received(p) => if s == ConnState::Idle {
                match p {
                    Packet::ScanReq(d) => s2 == ConnState::Scanning && a == Action::RunScan(d.argv),
                    Packet::LockReq(d) => lock_request_step(d, s2, a),
                    _ => s2 == ConnState::Idle && a is Ignore,
                }
            } else {
                s2 == s && a is Ignore
            },
            Event::Malformed(m) => if s == ConnState::Idle {
                &&& s2 == ConnState::Idle
                &&& a matches Action::Send(Packet::ScanRsp(r)) && scan_reply(r, Err(m))
            } else {
                s2 == s && a is Ignore
            },
            Event::ArgvRejected(m) => if s == ConnState::Scanning {
                &&& s2 == ConnState::Idle
                &&& a matches Action::Send(Packet::ScanRsp(r)) && scan_reply(r, Err(m))
            } else if s == ConnState::Locking {
                &&& s2 == ConnState::Idle
                &&& a matches Action::Send(Packet::LockRsp(r)) && lock_reply(r, Err(m))
            } else {
                s2 == s && a is Ignore
            },
            Event::ScanDone(res) => if s == ConnState::Scanning {
                &&& s2 == ConnState::Idle
                &&& a matches Action::Send(Packet::ScanRsp(r)) && scan_reply(r, res)
            } else {
                s2 == s && a is Ignore
            },
            Event::LockDone(res) => if s == ConnState::Locking {
                &&& s2 == ConnState::Idle
                &&& a matches Action::Send(Packet::LockRsp(r)) && lock_reply(r, res)
            } else {
                s2 == s && a is Ignore
            },
        }
    }
}

/// A new connection announces the configuration and then waits for requests.
pub fn greeting(config: ConfigNotifyData) -> (r: (ConnState, Action))
    ensures
        r.0 == ConnState::Idle,
        r.1 == Action::Send(Packet::ConfigNotify(config)),
{
    (ConnState::Idle, Action::Send(Packet::ConfigNotify(config)))
}

fn lock_request(d: LockReqData) -> (r: (ConnState, Action))
    ensures
        lock_request_step(d, r.0, r.1),
{
    let LockReqData { argv, indices, lock_json } = d;
    match lock_json {
        Some(j) => match LockAction::from_lock_json(j.as_str()) {
            Some(actions) => (ConnState::Locking, Action::RunLock(argv, actions)),
            None => {
                let message = "invalid lock specification".to_owned();
                (
                    ConnState::Idle,
                    Action::Send(Packet::LockRsp(LockRspData { success: false, message })),
                )
            },
        },
        None => {
            let actions = match indices {
                Some(ix) => LockAction::from_v1(&ix),
                None => Vec::new(),
            };
            (ConnState::Locking, Action::RunLock(argv, actions))
        },
    }
}

/// The next state and action of a connection in state `s` after event `e`.
pub fn step(s: ConnState, e: Event) -> (r: (ConnState, Action))
    ensures
        stepped(s, e, r.0, r.1),
{
    if s == ConnState::Closed {
        return (ConnState::Closed, Action::Close);
    }
    match e {
        Event::ConnectionLost => (ConnState::Closed, Action::Close),
        Event::Received(p) => {
            if s != ConnState::Idle {
                return (s, Action::Ignore);
            }
            match p {
                Packet::ScanReq(d) => (ConnState::Scanning, Action::RunScan(d.argv)),
                Packet::LockReq(d) => lock_request(d),
                _ => (ConnState::Idle, Action::Ignore),
            }
        },
        Event::Malformed(m) => {
            if s == ConnState::Idle {
                (ConnState::Idle, Action::Send(Packet::ScanRsp(ScanRspData::new(Err(m)))))
            } else {
                (s, Action::Ignore)
            }
        },
        Event::ArgvRejected(m) => {
            if s == ConnState::Scanning {
                (ConnState::Idle, Action::Send(Packet::ScanRsp(ScanRspData::new(Err(m)))))
            } else if s == ConnState::Locking {
                (ConnState::Idle, Action::Send(Packet::LockRsp(LockRspData::new(Err(m)))))
            } else {
                (s, Action::Ignore)
            }
        },
        Event::ScanDone(res) => {
            if s == ConnState::Scanning {
                (ConnState::Idle, Action::Send(Packet::ScanRsp(ScanRspData::new(res))))
            } else {
                (s, Action::Ignore)
            }
        },
        Event::LockDone(res) => {
            if s == ConnState::Locking {
                (ConnState::Idle, Action::Send(Packet::LockRsp(LockRspData::new(res))))
            } else {
                (s, Action::Ignore)
            }
        },
    }
}

/// A text that is not a protocol message, received while idle, is answered
/// with a failure that carries a non-empty message, and the connection keeps
/// waiting for requests.
pub proof fn lemma_malformed_text_answered(m: String, s2: ConnState, a: Action)
    requires
        stepped(ConnState::Idle, Event::Malformed(m), s2, a),
    ensures
        s2 == ConnState::Idle,
        a matches Action::Send(Packet::ScanRsp(r)) && !r.success && r.message@.len() > 0,
{
    reveal_strlit("unknown error");
}

/// A scan request whose argument vector is refused is answered with a
/// failure that carries a non-empty message, and the connection then serves
/// the next request.
pub proof fn lemma_refused_arguments_keep_connection(
    req: Packet,
    msg: String,
    next: Packet,
    s1: ConnState,
    a1: Action,
    s2: ConnState,
    a2: Action,
    s3: ConnState,
    a3: Action,
)
    requires
        req is ScanReq,
        next is ScanReq,
        stepped(ConnState::Idle, Event::Received(req), s1, a1),
        stepped(s1, Event::ArgvRejected(msg), s2, a2),
        stepped(s2, Event::Received(next), s3, a3),
    ensures
        a1 is RunScan,
        a2 matches Action::Send(Packet::ScanRsp(r)) && !r.success && r.message@.len() > 0,
        s2 == ConnState::Idle,
        s3 == ConnState::Scanning,
        a3 == Action::RunScan(next->ScanReq_0.argv),
{
    reveal_strlit("unknown error");
}

} // verus!
