//! Pop runtime logic: the Pop API chain extension, the fungibles API with the
//! wire format of its state keys, and ISMP routing, with their contracts and
//! laws proved by Verus.

pub mod extension;
pub mod fungibles;
pub mod ismp_routing;
pub mod weights;
