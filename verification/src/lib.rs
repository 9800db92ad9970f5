//! Normalisation and dispatch of device-verification events.
//!
//! A verification handshake reaches a client over two transports, the room
//! timeline and direct to-device messages, each with its own event shapes.
//! This crate projects both onto one event type, queues the events for a
//! single consumer in a bounded channel, and settles the outcome of the
//! actions that the application takes on a received event. It also holds the
//! application's settings.

pub mod action;
pub mod channel;
pub mod controller;
pub mod event;
pub mod identity;
pub mod settings;
pub mod timeline;
pub mod to_device;

pub use action::{
    settle_done, settle_emoji, settle_flag, settle_round, ActionError, CorrelationKey, Resolution,
    SasEmoji, SessionVerificationEmoji,
};
pub use channel::DispatchChannel;
pub use controller::{
    ControllerView, Dispatch, EventReceiver, RawBatch, SessionVerificationController,
    CHANNEL_CAPACITY,
};
pub use event::{EventKind, SessionVerificationEvent, VerificationEventView};
pub use settings::{
    ActerAppSettingsContent, ActerAppSettingsContentBuilder, BuilderError, EventsSettings,
    NewsSettings, PinsSettings, SimpleSettingWithTurnOff, SimpleSettingWithTurnOffBuilder,
    APP_SETTINGS_FIELD,
};
pub use timeline::{JoinedRoomTimeline, MessageType, RoomEvent, TimelineContent, TimelineEvent};
pub use to_device::{ToDeviceContent, ToDeviceEvent};
