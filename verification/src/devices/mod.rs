//! Interactive devices: doors, electronic devices, hologram doors, switches,
//! pressure plates, recharger stations, examinable objects, camera moves and
//! the device list of the player.

pub mod door_system;
pub mod electronic_device;
pub mod examine_object;
pub mod hologram_door;
pub mod move_camera_to_device;
pub mod move_device_to_camera;
pub mod pressure_plate;
pub mod recharger_station;
pub mod simple_switch;
pub mod string_action;
pub mod using_devices;
