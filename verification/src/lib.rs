//! Embedding of a JavaScript runtime in a host scripting language.
//!
//! The engine that runs the JavaScript and the host that calls it are not
//! part of this library. The library holds what is decided between them:
//!
//! - `value`, `number`, `text`, `bridge`: the values of the two heaps, and
//!   what a value of one becomes on the other;
//! - `registry`, `dispatch`: the host callables that JavaScript can call as
//!   ops, and what happens when it calls one;
//! - `specifier`, `loader`: module specifiers, and the shim around a module
//!   loader that the host wrote;
//! - `runtime`, `worker`: what the engine is asked, and when, and what the
//!   host is told of its answers;
//! - `error`: the errors, and the exception that stands for a JavaScript
//!   error;
//! - `ast`: parsing of module sources and transpiling them to JavaScript.

pub mod ast;
pub mod bridge;
pub mod dispatch;
pub mod error;
pub mod loader;
pub mod number;
pub mod registry;
pub mod runtime;
pub mod specifier;
pub mod text;
pub mod value;
pub mod worker;
