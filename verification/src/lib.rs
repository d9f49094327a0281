//! Half-open integer intervals `[start, end_excl)` over the primitive integer types, with
//! their algebra (intersection, hull, gap, union, differences) and Minkowski arithmetic.

pub mod capability;
pub mod crate_root;
pub mod intervals;
pub mod res;
pub mod span;
pub mod traits;

pub use capability::{
    COAlgebra, COBounds, COCheckedMinkowskiHull, COCheckedMinkowskiLinear, COConstruct, COMeasure,
    COMidpoint, COMidpointConstruct, COPredicates, COPrimitive, CORange,
    COSaturatingMinkowskiHull, COSaturatingMinkowskiLinear, IntCO,
};
pub use intervals::i128co::I128CO;
pub use intervals::i16co::I16CO;
pub use intervals::i32co::I32CO;
pub use intervals::i64co::I64CO;
pub use intervals::i8co::I8CO;
pub use intervals::isizeco::IsizeCO;
pub use intervals::u128co::U128CO;
pub use intervals::u16co::U16CO;
pub use intervals::u32co::U32CO;
pub use intervals::u64co::U64CO;
pub use intervals::u8co::U8CO;
pub use intervals::usizeco::UsizeCO;
pub use res::{OneTwo, ResultIter, ZeroOneTwo};
pub use traits::sealed::{Int, Unsigned};
pub use traits::sealed::{Int as IntPrimitive, Unsigned as UnsignedPrimitive};
