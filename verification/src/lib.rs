use vstd::prelude::*;

pub mod text;
pub mod figlet_title;
pub mod cycle;
pub mod runners;
pub mod edit_game_details;
pub mod scan_form;
pub mod toast;
pub mod actions;
pub mod gamepad;
pub mod input_drain;
pub mod launcher;
pub mod gamepad_dispatch;
pub mod mouse_handler;
pub mod platforms;
pub mod scan_progress;
pub mod options;
pub mod cli;
pub mod session;
pub mod text_edit;
pub mod game_form;
pub mod wine_runners;
pub mod modal_nav;
pub mod game_record;
pub mod launch_env;
pub mod media_picker;
pub mod proton_wizard;
pub mod download_events;
pub mod media_fetch;
pub mod cover_requests;
pub mod keyboard;
pub mod modal_keys;
pub mod runner_config;
pub mod wine_tools;
pub mod pickers;
pub mod add_folder;
pub mod selection;
pub mod settings;
pub mod edit_form;
pub mod folder_manager;
