pub mod cipher;
pub mod sys;
pub mod fun;
pub mod text;
