pub mod kind;
pub mod record;
