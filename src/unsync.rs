//! Values for a single thread: their reference counts are not atomic.
pub use crate::array::{IArray, Iter};
pub use crate::map::{IMap, IMapIter, IMapKeys, IMapValues};
pub use crate::string::IString;
