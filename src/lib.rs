//! Ownership and exception-channel layer for an embedded JavaScript engine.
//!
//! Engine handles are carried as plain addresses (`usize`, with `0` standing
//! for the null handle). The types here decide what a handle means, who owns
//! it, and how the engine's two-channel error convention becomes a `Result`.
pub mod callback;
pub mod class;
pub mod context;
pub mod exception;
pub mod object;
pub mod string;
pub mod sys;
pub mod typed_array;
pub mod value;

pub use crate::class::{JSClass, JSClassBuilder};
pub use crate::context::{JSContext, JSContextGroup};
pub use crate::exception::JSException;
pub use crate::object::{JSObject, JSObjectPropertyNameIter};
pub use crate::string::JSString;
pub use crate::sys::{JSType, JSTypedArrayType};
pub use crate::typed_array::JSTypedArray;
pub use crate::value::JSValue;
