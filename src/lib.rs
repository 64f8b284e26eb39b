//! Client-side building blocks for the osu! web service: query assembly for
//! both API generations, the closed parameter and reference types they take,
//! and the classification of decoded responses.

pub mod text;
pub mod kinds;
pub mod query;
pub mod decode;
pub mod v1;
pub mod v2;
pub mod entity_v1;
pub mod entity_v2;
pub mod private;

pub use decode::ApiError;
pub use kinds::{DataType, Mode, Mods, UserType};
pub use v1::ApiV1;
pub use v2::ApiV2;
