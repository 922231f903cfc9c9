pub mod text;
pub mod num;
pub mod digest;
pub mod xml;
pub mod game_xml;
pub mod game_state;
pub mod settings;
pub mod index;
pub mod download;
pub mod verify;
pub mod mods;
pub mod cleanup;
pub mod launch;
pub mod system;
pub mod rpc;
pub mod inspect;
