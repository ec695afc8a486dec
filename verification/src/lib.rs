//! Decoders for a family of versioned binary asset containers: meshes,
//! skeletons, materials, resource descriptors, navigation data and
//! particle-effect trees.
//!
//! Every decoder is a function from a byte cursor to either a value and the
//! remaining cursor, or a [`DecodeError`]. Each one is specified by a pure
//! function over `Seq<u8>` and proved to compute exactly that function.
pub mod decode;
pub mod divisioninfo;
pub mod enums;
pub mod error;
pub mod gmwpfort;
pub mod jmxv2dti;
pub mod jmxvban;
pub mod jmxvbms;
pub mod jmxvbmt;
pub mod jmxvbsk;
pub mod jmxvbsr;
pub mod jmxvcpd;
pub mod jmxvddj;
pub mod jmxvdof;
pub mod jmxveff;
pub mod jmxvenvi;
pub mod jmxvmapm;
pub mod jmxvmapo;
pub mod jmxvmapt;
pub mod jmxvmfo;
pub mod jmxvnvm;
pub mod jmxvobji;
pub mod math;
pub mod newinterface;
pub mod parser_ext;

pub use decode::{Decoder, Each, IResult, Parse, Parsed};
pub use enums::{
    NewInterfaceType, ResourceAnimationType, ResourceType, TileSound, UnknownNewInterfaceType,
    UnknownResourceAnimationType, UnknownResourceType, UnknownTileSound,
};
pub use error::{DecodeError, DecodeErrorView};
