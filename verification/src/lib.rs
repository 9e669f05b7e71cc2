//! The host side of a vtable-dispatched shader-compiler toolchain: what is
//! handed to the foreign component, what is made of its answers, and in which
//! order it is asked.
//!
//! Nothing here touches the foreign component. A workflow is a session that
//! names the next call to make; whoever drives it makes the call and reports
//! what came of it.

pub mod blob;
pub mod error;
pub mod ffi;
pub mod handler;
pub mod os;
pub mod session;
pub mod utils;
pub mod wide;

pub use blob::Blob;
pub use error::HassleError;
pub use ffi::{guid_fields, DxcClass, DxcDefine, DxcInterface, GuidFields};
pub use handler::{
    load_include, DxcIncludeHandler, IncludeResponse, IncludeServer, SourceTable,
};
pub use session::{CompileCall, CompileSession, Module, Reply, Request, ValidateSession};
pub use utils::{
    compile_hlsl, from_bstr, from_lpstr, from_wide, to_wide, validate_dxil, BstrLayout,
    FromWideError, NulError,
};
pub use wide::WideUnit;
