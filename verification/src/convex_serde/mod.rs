//! Codec between store values and typed records.

pub mod de;
pub mod ser;
pub mod value;

pub use de::Error as DeError;
pub use ser::Error as SerError;
pub use value::Value;
