//! Relic scanning core: calibration of reference layouts onto captured
//! windows, parsing of recognised text into typed relic records, the lock
//! specification format and the remote-control session protocol.

pub mod catalog;
pub mod decimal;
pub mod export;
pub mod layout;
pub mod lock;
pub mod packet;
pub mod relic;
pub mod scan;
pub mod session;
pub mod text;
pub mod utils;
