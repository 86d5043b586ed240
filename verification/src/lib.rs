//! RGB control of LG UltraGear monitors: the protocol, the command bus, the
//! sync sessions and the rules of the tray application, as verified functions
//! from plain values to plain values.

pub mod audio;
pub mod audio_laws;
pub mod audio_sync;
pub mod capture;
pub mod capture_laws;
pub mod color_dialog;
pub mod compute;
pub mod engine;
pub mod event_ids;
pub mod events;
pub mod factor;
pub mod i18n;
pub mod id_laws;
pub mod image_laws;
pub mod image_sync;
pub mod menu;
pub mod menu_items;
pub mod menu_laws;
pub mod panel;
pub mod picker;
pub mod sampling;
pub mod sampling_laws;
pub mod settings;
pub mod stats;
pub mod text;
pub mod text_laws;
pub mod tray_laws;
pub mod usb;
pub mod usb_protocol;
pub mod view_laws;
pub mod wire_laws;
