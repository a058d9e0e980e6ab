pub mod installer;
pub mod installers;
