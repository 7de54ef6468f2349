//! Numeric values for localized messages: formatting options, the canonical
//! decimal text of a number, and the plural operands derived from it.

pub mod args;
pub mod binary64;
pub mod canonical;
pub mod convert;
pub mod number;
pub mod operands;
pub mod options;
pub mod style;
pub mod text;
pub mod value;

pub use args::FluentArgs;
pub use number::FluentNumber;
pub use operands::Operands;
pub use options::FluentNumberOptions;
pub use style::{FluentNumberCurrencyDisplayStyle, FluentNumberStyle};
pub use value::FluentValue;
