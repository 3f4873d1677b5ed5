//! Verified core of a terminal MCU debug assistant: UTF-8 aware text
//! fields, firmware image loading, the STM32 USART bootloader framing and
//! the decision logic behind the serial monitor and flashing workbenches.

pub mod firmware;
pub mod flash_keys;
pub mod flash_start;
pub mod flash_state;
pub mod flashing;
pub mod home;
pub mod image;
pub mod isp_protocol;
pub mod isp_session;
pub mod keys;
pub mod lossy;
pub mod monitor;
pub mod monitor_keys;
pub mod numfmt;
pub mod serial_config;
pub mod root;
pub mod text;
pub mod widgets;
pub mod width;
