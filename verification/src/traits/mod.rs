pub mod decimal;
pub mod impls;
pub mod sealed;
