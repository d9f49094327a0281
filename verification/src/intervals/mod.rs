pub mod i128co;
pub mod i16co;
pub mod i32co;
pub mod i64co;
pub mod i8co;
pub mod isizeco;
pub mod u128co;
pub mod u16co;
pub mod u32co;
pub mod u64co;
pub mod u8co;
pub mod usizeco;
