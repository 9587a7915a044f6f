//! Vanilla gameplay and authoring logic for the Freven reference experience:
//! block-type authoring compilers, action payload codecs, humanoid input
//! encoding, storage-id rules and flat world generation plans.

pub mod storage_ids;
pub mod humanoid_input;
pub mod control;
pub mod wire;
pub mod action_payloads;
pub mod text;
pub mod authoring;
pub mod worldgen;
pub mod blocks;
pub mod actions;
pub mod interaction;
pub mod modmsg;
