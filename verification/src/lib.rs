//! Verified core of a Geometry Dash demonlist: the rules that decide which
//! records, demons, players and videos the list accepts, and the plans that
//! keep the record table consistent when records change.

pub mod claim;
pub mod config;
pub mod consistency;
pub mod creator;
pub mod demon;
pub mod error;
pub mod gd;
pub mod list;
pub mod movement;
pub mod nationality;
pub mod note;
pub mod pages;
pub mod permissions;
pub mod player;
pub mod record;
pub mod submission;
pub mod submitter;
pub mod text;
pub mod video;
