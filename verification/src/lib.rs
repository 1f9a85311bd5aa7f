//! The logic of an internet radio for a Raspberry Pi: the configuration and channel files,
//! the choice of what to play next, the text on its 4 x 20 character screen, the network and
//! ping state, and the reports it writes. Each function states its behaviour in its contract.
pub mod text;
pub mod extract_html;
pub mod html_helpers;
pub mod read_config;
pub mod get_channel_details;
pub mod mount_media;
pub mod lcd;
pub mod ping;
pub mod network;
pub mod podcast;
pub mod player_status;
pub mod gstreamer_interfaces;
pub mod previous_or_nextrack;
pub mod lcd_screen;
pub mod play_channel;
pub mod keyboard;
pub mod events;
pub mod reports;
