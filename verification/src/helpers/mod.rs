pub mod clock;
pub mod enums;
pub mod text;
