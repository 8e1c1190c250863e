pub mod dnp3;
pub mod entropy;
