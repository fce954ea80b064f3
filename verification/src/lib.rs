//! Guilds, channels, chat and voice over replicated operation logs, and the
//! control plane that provisions the agents taking part in them.
use vstd::prelude::*;

pub mod action_laws;
pub mod agent;
pub mod app;
pub mod app_core;
pub mod app_laws;
pub mod channel_groups;
pub mod chat;
pub mod chat_laws;
pub mod ci;
pub mod clock;
pub mod collections;
pub mod control;
pub mod control_laws;
pub mod crypto;
pub mod guild_laws;
pub mod json;
pub mod keyring;
pub mod log_laws;
pub mod membership_laws;
pub mod messaging;
pub mod mirror;
pub mod permission_laws;
pub mod permissions;
pub mod profile;
pub mod profile_laws;
pub mod reconcile;
pub mod relay_laws;
pub mod replay;
pub mod sim;
pub mod sorting;
pub mod storage;
pub mod text;
pub mod text_laws;
pub mod tool_laws;
pub mod voice;
pub mod voice_actions;
pub mod voice_laws;
pub mod voice_media;
pub mod workspace;

pub use crate::app::{
    AppState, AppUpdate, ChannelSummary, GuildSummary, TimelineMessageSummary,
    TimelineReactionSummary, VoiceParticipantSummary, VoiceRoomSummary,
};
pub use crate::app_core::{AppAction, AppCore, AppStep};
use crate::collections::Replicate;

verus! {

/// What a channel is for.
#[derive(Clone, Copy, Debug, PartialEq, Eq, Structural)]
pub enum ChannelKind {
    Text,
    Voice,
    Private,
    Thread,
}

impl DeepView for ChannelKind {
    type V = ChannelKind;

    open spec fn deep_view(&self) -> ChannelKind {
        *self
    }
}

impl Replicate for ChannelKind {
    fn replicate(&self) -> (copy: Self) {
        *self
    }
}

} // verus!
