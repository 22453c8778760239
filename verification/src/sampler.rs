//! How an image is read through a sampler.

use vstd::prelude::*;

verus! {

/// Describes the value that an individual component must return when being accessed.
#[derive(Clone, Copy, Debug, PartialEq, Eq, Structural)]
pub enum ComponentSwizzle {
    /// Returns the value that this component should normally have.
    Identity,
    /// Always return zero.
    Zero,
    /// Always return one.
    One,
    /// Returns the value of the first component.
    Red,
    /// Returns the value of the second component.
    Green,
    /// Returns the value of the third component.
    Blue,
    /// Returns the value of the fourth component.
    Alpha,
}

/// A mapping between components of a source format and components read by a shader.
#[derive(Clone, Copy, Debug, PartialEq, Eq, Structural)]
pub struct ComponentMapping {
    /// First component.
    pub r: ComponentSwizzle,
    /// Second component.
    pub g: ComponentSwizzle,
    /// Third component.
    pub b: ComponentSwizzle,
    /// Fourth component.
    pub a: ComponentSwizzle,
}

impl ComponentMapping {
    /// The mapping that leaves every component where it is.
    pub open spec fn identity_spec() -> ComponentMapping {
        ComponentMapping {
            r: ComponentSwizzle::Identity,
            g: ComponentSwizzle::Identity,
            b: ComponentSwizzle::Identity,
            a: ComponentSwizzle::Identity,
        }
    }

    /// Creates a `ComponentMapping` with all components identity swizzled.
    pub fn identity() -> (mapping: ComponentMapping)
        ensures
            mapping == ComponentMapping::identity_spec(),
    {
        ComponentMapping {
            r: ComponentSwizzle::Identity,
            g: ComponentSwizzle::Identity,
            b: ComponentSwizzle::Identity,
            a: ComponentSwizzle::Identity,
        }
    }

    /// Whether each component is read from itself, by name or by default.
    pub open spec fn is_identity_spec(self) -> bool {
        &&& (self.r is Identity || self.r is Red)
        &&& (self.g is Identity || self.g is Green)
        &&& (self.b is Identity || self.b is Blue)
        &&& (self.a is Identity || self.a is Alpha)
    }

    /// Returns `true` if all components are identity swizzled,
    /// meaning that all the members are `Identity` or the name of that member.
    ///
    /// Certain operations require views that are identity swizzled, and will return an error
    /// otherwise. For example, attaching a view to a framebuffer is only possible if the view is
    /// identity swizzled.
    pub fn is_identity(&self) -> (r: bool)
        ensures
            r == self.is_identity_spec(),
    {
        (match self.r {
            ComponentSwizzle::Identity | ComponentSwizzle::Red => true,
            _ => false,
        }) && (match self.g {
            ComponentSwizzle::Identity | ComponentSwizzle::Green => true,
            _ => false,
        }) && (match self.b {
            ComponentSwizzle::Identity | ComponentSwizzle::Blue => true,
            _ => false,
        }) && (match self.a {
            ComponentSwizzle::Identity | ComponentSwizzle::Alpha => true,
            _ => false,
        })
    }
}

/// A conversion between YCbCr and RGB that a sampler applies.
#[derive(Clone, Copy, Debug, PartialEq, Eq, Structural)]
pub struct SamplerYcbcrConversion {
    /// The driver's handle of the conversion.
    pub handle: u64,
    /// The device that the conversion belongs to.
    pub device: u64,
}

/// How a sampler reads between texels.
#[derive(Clone, Copy, Debug, PartialEq, Eq, Structural)]
pub enum Filter {
    /// The value of the nearest texel.
    Nearest,
    /// A mix of the values of the nearest texels.
    Linear,
    /// A cubic mix of the values of the nearest texels.
    Cubic,
}

} // verus!
