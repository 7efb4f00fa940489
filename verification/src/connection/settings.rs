//! HTTP/2 connection settings.
use vstd::prelude::*;
use crate::frame::{DEFAULT_INITIAL_WINDOW_SIZE, DEFAULT_MAX_FRAME_SIZE};

verus! {

/// HTTP/2 connection settings.
///
/// These track both local settings (what we advertise to the peer) and
/// remote settings (what the peer advertises to us).
#[derive(Debug, Clone, Copy)]
pub struct ConnectionSettings {
    /// Maximum number of concurrent streams.
    pub max_concurrent_streams: u32,
    /// Initial stream window size.
    pub initial_window_size: u32,
    /// Maximum frame size.
    pub max_frame_size: u32,
    /// Maximum header list size.
    pub max_header_list_size: u32,
    /// HPACK header table size.
    pub header_table_size: u32,
    /// Whether server push is enabled.
    pub enable_push: bool,
}

impl ConnectionSettings {
    /// The default settings.
    pub open spec fn spec_default() -> ConnectionSettings {
        ConnectionSettings {
            max_concurrent_streams: 100,
            initial_window_size: DEFAULT_INITIAL_WINDOW_SIZE,
            max_frame_size: DEFAULT_MAX_FRAME_SIZE,
            max_header_list_size: 16384,
            header_table_size: 4096,
            enable_push: false,
        }
    }
}

impl Default for ConnectionSettings {
    fn default() -> (r: Self)
        ensures
            r == ConnectionSettings::spec_default(),
    {
        ConnectionSettings {
            max_concurrent_streams: 100,
            initial_window_size: DEFAULT_INITIAL_WINDOW_SIZE,
            max_frame_size: DEFAULT_MAX_FRAME_SIZE,
            max_header_list_size: 16384,
            header_table_size: 4096,
            // Client typically disables server push
            enable_push: false,
        }
    }
}

impl ConnectionSettings {
    /// Create new settings with default values.
    pub fn new() -> (r: Self)
        ensures
            r == ConnectionSettings::spec_default(),
    {
        Self::default()
    }

    /// Set maximum concurrent streams.
    pub fn max_concurrent_streams(self, value: u32) -> (r: Self)
        ensures
            r == (ConnectionSettings { max_concurrent_streams: value, ..self }),
    {
        ConnectionSettings { max_concurrent_streams: value, ..self }
    }

    /// Set initial window size.
    pub fn initial_window_size(self, value: u32) -> (r: Self)
        ensures
            r == (ConnectionSettings { initial_window_size: value, ..self }),
    {
        ConnectionSettings { initial_window_size: value, ..self }
    }

    /// Set maximum frame size.
    pub fn max_frame_size(self, value: u32) -> (r: Self)
        ensures
            r == (ConnectionSettings { max_frame_size: value, ..self }),
    {
        ConnectionSettings { max_frame_size: value, ..self }
    }

    /// Set maximum header list size.
    pub fn max_header_list_size(self, value: u32) -> (r: Self)
        ensures
            r == (ConnectionSettings { max_header_list_size: value, ..self }),
    {
        ConnectionSettings { max_header_list_size: value, ..self }
    }

    /// Set header table size.
    pub fn header_table_size(self, value: u32) -> (r: Self)
        ensures
            r == (ConnectionSettings { header_table_size: value, ..self }),
    {
        ConnectionSettings { header_table_size: value, ..self }
    }

    /// Enable or disable server push.
    pub fn enable_push(self, value: bool) -> (r: Self)
        ensures
            r == (ConnectionSettings { enable_push: value, ..self }),
    {
        ConnectionSettings { enable_push: value, ..self }
    }
}

} // verus!
