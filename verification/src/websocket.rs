pub mod ws_handler;
pub mod ws_msg_handler;
pub mod ws_sender;
pub mod ws_upgrade;
