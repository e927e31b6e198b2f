use vstd::prelude::*;

use crate::random::uniform_u64;

verus! {

/// A list of parameter values read from a configuration.
pub struct ParameterList<T> {
    pub items: Vec<T>,
}

impl<T> ParameterList<T> {
    pub fn from_items(items: Vec<T>) -> (r: ParameterList<T>)
        ensures
            r.items@ == items@,
    {
        ParameterList { items }
    }

    pub fn len(&self) -> (n: usize)
        ensures
            n == self.items@.len(),
    {
        self.items.len()
    }
}

/// A single parameter value read from a configuration.
pub struct Primitive<T> {
    pub item: T,
}

impl<T> Primitive<T> {
    pub fn new(item: T) -> (r: Primitive<T>)
        ensures
            r.item == item,
    {
        Primitive { item }
    }

    /// The value, left in place.
    pub fn check(&self) -> (r: &T)
        ensures
            *r == self.item,
    {
        &self.item
    }

    /// The value, taken out.
    pub fn get(self) -> (r: T)
        ensures
            r == self.item,
    {
        self.item
    }
}

/// A range to draw a parameter from: `min` included, `max` left out.
#[derive(Clone, Copy, Debug, PartialEq, Eq, Structural)]
pub struct ParameterRange {
    pub min: u64,
    pub max: u64,
}

/// A parameter given exactly, as a list to choose from, or as a range to draw from.
pub enum ComplexPrimitive {
    Exact(u64),
    Choice(Vec<u64>),
    Range(ParameterRange),
}

/// Why a parameter could not be resolved.
#[derive(Clone, Copy, Debug, PartialEq, Eq, Structural)]
pub enum ParameterError {
    NoChoices,
    EmptyRange,
}

impl ParameterRange {
    /// A value drawn from the range; refused where it is empty.
    pub fn get(self, rng: &mut rand::rngs::StdRng) -> (r: Result<u64, ParameterError>)
        ensures
            r is Ok <==> self.min < self.max,
            r matches Ok(v) ==> self.min <= v < self.max,
            r matches Err(e) ==> e == ParameterError::EmptyRange,
    {
        if self.min < self.max {
            Ok(uniform_u64(rng, self.min, self.max))
        } else {
            Err(ParameterError::EmptyRange)
        }
    }
}

impl ComplexPrimitive {
    /// One value: the exact one, one of the choices, or one drawn from the range. Refused where
    /// there is nothing to choose from.
    pub fn get(self, rng: &mut rand::rngs::StdRng) -> (r: Result<u64, ParameterError>)
        ensures
            match self {
                ComplexPrimitive::Exact(v) => r == Ok::<u64, ParameterError>(v),
                ComplexPrimitive::Choice(vs) => (r is Ok <==> vs@.len() > 0)
                    && (r matches Ok(v) ==> vs@.contains(v))
                    && (r matches Err(e) ==> e == ParameterError::NoChoices),
                ComplexPrimitive::Range(range) => (r is Ok <==> range.min < range.max)
                    && (r matches Ok(v) ==> range.min <= v < range.max)
                    && (r matches Err(e) ==> e == ParameterError::EmptyRange),
            },
    {
        match self {
            ComplexPrimitive::Exact(v) => Ok(v),
            ComplexPrimitive::Choice(vs) => {
                if vs.len() == 0 {
                    Err(ParameterError::NoChoices)
                } else {
                    let i = uniform_u64(rng, 0, vs.len() as u64) as usize;
                    assert(vs@.contains(vs@[i as int]));
                    Ok(vs[i])
                }
            },
            ComplexPrimitive::Range(range) => range.get(rng),
        }
    }
}

} // verus!
