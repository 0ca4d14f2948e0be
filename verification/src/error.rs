//! The miner's errors, with the texts that describe them.

use vstd::prelude::*;
use crate::codec::{debug_quoted, quote_debug};
use crate::text::joined;

verus! {

/// What can go wrong while mining.
#[derive(Debug)]
pub enum MinerError {
    StreamDead,
    ConnectionTimeout,
    ExecutionDropped,
    InvalidHost(String),
    TargetDdosProtectionTriggered,
    ChannelError(String),
}

/// An error as plain values.
pub enum ErrorView {
    StreamDead,
    ConnectionTimeout,
    ExecutionDropped,
    InvalidHost(Seq<char>),
    TargetDdosProtectionTriggered,
    ChannelError(Seq<char>),
}

impl View for MinerError {
    type V = ErrorView;

    open spec fn view(&self) -> ErrorView {
        match self {
            MinerError::StreamDead => ErrorView::StreamDead,
            MinerError::ConnectionTimeout => ErrorView::ConnectionTimeout,
            MinerError::ExecutionDropped => ErrorView::ExecutionDropped,
            MinerError::InvalidHost(s) => ErrorView::InvalidHost(s@),
            MinerError::TargetDdosProtectionTriggered => ErrorView::TargetDdosProtectionTriggered,
            MinerError::ChannelError(s) => ErrorView::ChannelError(s@),
        }
    }
}

/// The human-readable message of an error.
pub open spec fn message_text(e: ErrorView) -> Seq<char> {
    match e {
        ErrorView::StreamDead => "Stream dead: connection to backend lost"@,
        ErrorView::ConnectionTimeout => "Connection timeout executing network job"@,
        ErrorView::ExecutionDropped => "Execution dropped due to runtime constraint"@,
        ErrorView::InvalidHost(s) => "Invalid host configuration or target URL: "@ + s,
        ErrorView::TargetDdosProtectionTriggered => "Target DDOS protection triggered (HTTP 429/403)"@,
        ErrorView::ChannelError(s) => "Internal system channel error: "@ + s,
    }
}

/// The debug spelling of an error: the variant's name, with its text quoted in
/// brackets where it carries one.
pub open spec fn debug_text(e: ErrorView) -> Seq<char> {
    match e {
        ErrorView::StreamDead => "StreamDead"@,
        ErrorView::ConnectionTimeout => "ConnectionTimeout"@,
        ErrorView::ExecutionDropped => "ExecutionDropped"@,
        ErrorView::InvalidHost(s) => "InvalidHost("@ + debug_quoted(s) + ")"@,
        ErrorView::TargetDdosProtectionTriggered => "TargetDdosProtectionTriggered"@,
        ErrorView::ChannelError(s) => "ChannelError("@ + debug_quoted(s) + ")"@,
    }
}

/// Law: every error's debug spelling is non-empty, so a record that carries one
/// can be told from a record of an answered probe.
pub proof fn debug_text_nonempty(e: ErrorView)
    ensures
        debug_text(e).len() > 0,
{
    reveal_strlit("StreamDead");
    reveal_strlit("ConnectionTimeout");
    reveal_strlit("ExecutionDropped");
    reveal_strlit("InvalidHost(");
    reveal_strlit("TargetDdosProtectionTriggered");
    reveal_strlit("ChannelError(");
}

impl MinerError {
    /// A copy of this error.
    pub fn duplicate(&self) -> (r: MinerError)
        ensures
            r == *self,
    {
        match self {
            MinerError::StreamDead => MinerError::StreamDead,
            MinerError::ConnectionTimeout => MinerError::ConnectionTimeout,
            MinerError::ExecutionDropped => MinerError::ExecutionDropped,
            MinerError::InvalidHost(s) => MinerError::InvalidHost(s.clone()),
            MinerError::TargetDdosProtectionTriggered => MinerError::TargetDdosProtectionTriggered,
            MinerError::ChannelError(s) => MinerError::ChannelError(s.clone()),
        }
    }

    /// The error's message, as its `Display` writes it.
    pub fn message(&self) -> (r: String)
        ensures
            r@ == message_text(self@),
    {
        match self {
            MinerError::StreamDead => String::from_str("Stream dead: connection to backend lost"),
            MinerError::ConnectionTimeout => String::from_str("Connection timeout executing network job"),
            MinerError::ExecutionDropped => String::from_str("Execution dropped due to runtime constraint"),
            MinerError::InvalidHost(s) => joined("Invalid host configuration or target URL: ", s.as_str()),
            MinerError::TargetDdosProtectionTriggered => String::from_str("Target DDOS protection triggered (HTTP 429/403)"),
            MinerError::ChannelError(s) => joined("Internal system channel error: ", s.as_str()),
        }
    }

    /// The error as `{:?}` spells it.
    pub fn debug_spelling(&self) -> (r: String)
        ensures
            r@ == debug_text(self@),
    {
        match self {
            MinerError::StreamDead => String::from_str("StreamDead"),
            MinerError::ConnectionTimeout => String::from_str("ConnectionTimeout"),
            MinerError::ExecutionDropped => String::from_str("ExecutionDropped"),
            MinerError::InvalidHost(s) => {
                let q = quote_debug(s.as_str());
                let mut r = joined("InvalidHost(", q.as_str());
                r.append(")");
                r
            },
            MinerError::TargetDdosProtectionTriggered => String::from_str("TargetDdosProtectionTriggered"),
            MinerError::ChannelError(s) => {
                let q = quote_debug(s.as_str());
                let mut r = joined("ChannelError(", q.as_str());
                r.append(")");
                r
            },
        }
    }
}

} // verus!
