//! Lowering of storage and contract-call library functions to assembly:
//! signature specialization, the instruction builder, and the invocation
//! compilers that drive it.

pub mod bigint;
pub mod operand;
pub mod instructions;
pub mod builder;
pub mod ids;
pub mod lib_func;
pub mod storage;
pub mod references;
pub mod array;
pub mod relocations;
pub mod invocations;
pub mod interoperability;
pub mod registry;
