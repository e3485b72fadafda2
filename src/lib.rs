pub mod browser;
pub mod catalog;
pub mod execute;
pub mod html;
pub mod shell;
pub mod text;
pub mod version;
