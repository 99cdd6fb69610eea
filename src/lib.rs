mod frame;
pub mod keyed;
pub mod laws;
pub mod pair;
pub mod seed;
pub mod sequence;
pub mod stateless;
pub mod token;
pub mod tuple4;

pub use keyed::{ComplexType, ComplexTypeSerde};
pub use pair::PairSerde;
pub use seed::{from_tokens, to_tokens, SerializeSeed, ValueWithSeed};
pub use sequence::VecSerde;
pub use stateless::{SelfDescribing, StatelessSerde};
pub use token::{CodecError, Expected, Token};
pub use tuple4::Tuple4Serde;
