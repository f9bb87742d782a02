//! Post-processing of recorded class sessions.
//!
//! A class (webinar, p2p session or minigroup) is recorded as one media track
//! per participant.  Once the tracks are uploaded, the event room timeline is
//! adjusted to the recorded spans, pin segments are computed for every track,
//! a transcoding task is submitted and finally a ready event is published.
//!
//! This crate holds the data transformations and the decisions of that
//! pipeline.  It performs no I/O: every handler is a transition function that
//! tells its host which action to perform next and is resumed with the outcome.

pub mod agent;
pub mod api;
pub mod class;
pub mod clients;
pub mod error;
pub mod event;
pub mod id;
pub mod message_handler;
pub mod postprocessing;
pub mod queries;
pub mod recording;
pub mod repository;
pub mod request_logger;
pub mod segments;
pub mod text;
pub mod time;
pub mod tq;
pub mod wire;
