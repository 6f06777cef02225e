pub mod identity;
pub mod collection;
pub mod import;
pub mod json_import;
pub mod favorite_playlists;
