//! HTTP/2 connection state: flow control, settings, streams and the
//! connection state machines.
mod client;
mod events;
mod exchange;
mod flow_control;
pub mod model;
mod server;
mod settings;
mod stream;

pub use flow_control::{
    consumed_all, lemma_consume_then_reset, lemma_increase_bounded, lemma_reset_after_consumes,
    lemma_should_update_at_half, threshold_follows_initial, total, FlowControl, FlowControlView,
    MAX_WINDOW_SIZE,
};
pub use client::{
    client_frame_done, client_frame_failed, client_frame_handled, client_frames_failed,
    client_frames_processed, client_headers_handled, client_with_core, client_with_read,
    lemma_request_stream_ids, preface_sent, request_started, transport_data_failed, trimmed,
    ClientView, Connection,
};
pub use events::{fields_view, ConnectionError, ConnectionEvent, ServerEvent};
pub use exchange::{
    lemma_data_delivered, lemma_request_data_delivered, lemma_request_delivered,
    lemma_response_delivered,
};
pub use model::{lemma_goaway_reported, lemma_setting_effect, lemma_ping_answered, lemma_header_table_size_applied, lemma_rst_stream_reported, lemma_send_amount_within_windows, lemma_settings_ready_once, lemma_window_update_checked, only_flow_errors_added, ConnectionErrorView, ConnectionState, CoreView, EventView};
pub use server::{
    server_frame_handled, server_frames_processed, server_headers_handled, server_processed,
    streams_view, streams_view_of, with_core, with_read, ServerConnection, ServerView,
};
pub use settings::ConnectionSettings;
pub use stream::{lemma_end_stream_transitions, Stream, StreamId, StreamState, StreamView};
