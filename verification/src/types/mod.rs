pub mod array;
pub mod bool;
pub mod list;
pub mod number;
pub mod table;
pub mod text;

pub use array::ArrayOf;
pub use self::bool::Bool;
pub use list::List;
pub use number::{I16, I32, I64, I8, U16, U32, U64, U8};
pub use table::TableList;
pub use text::Text;
