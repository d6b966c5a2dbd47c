//! Tiny traits and a carrier type that examples and tests use as subjects of
//! the transformation.

use vstd::prelude::*;

verus! {

pub trait T1 {

}

pub trait T2 {

}

#[derive(Clone)]
pub struct Foo {}

impl T1 for Foo {

}

} // verus!
