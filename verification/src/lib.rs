pub mod launcher;
pub mod mask;
pub mod win_path;
