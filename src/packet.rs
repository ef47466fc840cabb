//! The messages of the remote-control protocol.

use vstd::prelude::*;
use crate::decimal::Decimal;

verus! {

broadcast use vstd::string::group_string_axioms;

/// The effective scanner configuration, as announced to a remote client.
#[derive(Clone, Copy, Debug)]
pub struct YasScannerConfig {
    pub max_row: u32,
    pub capture_only: bool,
    pub min_star: u32,
    pub min_level: u32,
    pub max_wait_switch_artifact: u32,
    pub scroll_stop: u32,
    pub number: u32,
    pub dump_mode: bool,
    pub speed: u32,
    pub no_check: bool,
    pub max_wait_scroll: u32,
    pub mark: bool,
    pub dxgcap: bool,
    pub default_stop: u32,
    pub yun: bool,
    pub scroll_speed: Decimal,
    pub lock_stop: u32,
    pub max_wait_lock: u32,
}

#[derive(Clone, Copy, Debug)]
pub struct ConfigNotifyData {
    pub config: YasScannerConfig,
}

#[derive(Clone, Debug)]
pub struct ScanReqData {
    pub argv: Vec<String>,
}

#[derive(Clone, Debug)]
pub struct ScanRspData {
    pub success: bool,
    pub message: String,
    pub json: String,
}

#[derive(Clone, Debug)]
pub struct LockReqData {
    pub argv: Vec<String>,
    pub indices: Option<Vec<u32>>,
    pub lock_json: Option<String>,
}

#[derive(Clone, Debug)]
pub struct LockRspData {
    pub success: bool,
    pub message: String,
}

/// One protocol message.
#[derive(Clone, Debug)]
pub enum Packet {
    ConfigNotify(ConfigNotifyData),
    ScanReq(ScanReqData),
    ScanRsp(ScanRspData),
    LockReq(LockReqData),
    LockRsp(LockRspData),
}

/// The message a failure reports: the error's own text, or a fixed text
/// when that is empty.
pub open spec fn failure_message(m: Seq<char>) -> Seq<char> {
    if m.len() > 0 {
        m
    } else {
        "unknown error"@
    }
}

fn failure_text(m: String) -> (r: String)
    ensures
        r@ == failure_message(m@),
        r@.len() > 0,
{
    proof {
        reveal_strlit("unknown error");
    }
    if m.as_str().is_empty() {
        "unknown error".to_owned()
    } else {
        m
    }
}

impl ScanRspData {
    /// The response to a scan: the export payload, or the failure's message.
    pub fn new(result: Result<String, String>) -> (r: ScanRspData)
        ensures
            match result {
                Ok(json) => r.success && r.message@.len() == 0 && r.json@ == json@,
                Err(m) => !r.success && r.message@ == failure_message(m@) && r.json@.len() == 0,
            },
    {
        match result {
            Ok(json) => ScanRspData { success: true, message: String::new(), json },
            Err(m) => ScanRspData { success: false, message: failure_text(m), json: String::new() },
        }
    }
}

impl LockRspData {
    /// The response to a lock run: success, or the failure's message.
    pub fn new(result: Result<(), String>) -> (r: LockRspData)
        ensures
            match result {
                Ok(()) => r.success && r.message@.len() == 0,
                Err(m) => !r.success && r.message@ == failure_message(m@),
            },
    {
        match result {
            Ok(()) => LockRspData { success: true, message: String::new() },
            Err(m) => LockRspData { success: false, message: failure_text(m) },
        }
    }
}

/// The name of a message's kind.
pub open spec fn packet_name(p: Packet) -> Seq<char> {
    match p {
        Packet::ConfigNotify(_) => "ConfigNotify"@,
        Packet::ScanReq(_) => "ScanReq"@,
        Packet::ScanRsp(_) => "ScanRsp"@,
        Packet::LockReq(_) => "LockReq"@,
        Packet::LockRsp(_) => "LockRsp"@,
    }
}

impl Packet {
    /// The name of this message's kind, as used in its `cmd` tag.
    pub fn name(&self) -> (r: &'static str)
        ensures
            r@ == packet_name(*self),
    {
        match self {
            Packet::ConfigNotify(_) => "ConfigNotify",
            Packet::ScanReq(_) => "ScanReq",
            Packet::ScanRsp(_) => "ScanRsp",
            Packet::LockReq(_) => "LockReq",
            Packet::LockRsp(_) => "LockRsp",
        }
    }
}

} // verus!
