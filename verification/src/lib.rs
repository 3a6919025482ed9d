pub mod battery;
pub mod ble_advertising;
pub mod ble_gatt;
pub mod ble_host_power;
pub mod ble_link;
pub mod ble_status;
pub mod ble_transport;
pub mod channel;
pub mod device_info;
pub mod features;
pub mod hid;
pub mod keyboard_config;
pub mod keyboard_config_laws;
pub mod layer_led;
pub mod motion_pacing;
pub mod mouse_chunk;
pub mod pmw3610;
pub mod pmw3610_laws;
pub mod pmw3610_tasks;
pub mod pointing;
pub mod queue;
pub mod rtt_diag;
pub mod rtt_diag_laws;
pub mod rtt_diag_left;
pub mod scheduler_probe;
pub mod split_event;
pub mod time;
pub mod trackball;
pub mod trackball_call_laws;
pub mod trackball_laws;
pub mod trackball_step_laws;
pub mod uf2_usb_cleanup;
