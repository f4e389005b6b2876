//! Build-time registration of interfaces that are resolved when the program is
//! linked.
//!
//! An interface is a trait whose operations are associated functions. The
//! directive [`expand::api_def`] registers such a trait under one shared
//! namespace and asks for a caller per operation; [`expand::api_impl`] registers
//! the single implementation. A directive checks that it was given no argument
//! and that it stands on the right kind of item, and then puts one attribute in
//! front of the item, which it leaves as it is: the symbols are made and
//! matched by `crate_interface` and the linker. Nothing is kept between two
//! expansions.
//!
//! The modules [`time`], [`vmm`], [`host`], [`arch`] and [`memory`] hold the
//! interfaces that the hypervisor's components share. In them the
//! implementation is a type parameter, so that the choice is made at build time
//! here too.

pub mod arch;
pub mod expand;
pub mod host;
pub mod laws;
pub mod memory;
pub mod namespace;
pub mod resolver;
pub mod shape;
pub mod time;
pub mod tokens;
pub mod vmm;
