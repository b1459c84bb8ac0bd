//! A pizza consumer holding a slice of a pizza that outlives it.
use vstd::prelude::*;

verus! {

/// A pizza: the toppings of its slices.
pub struct Pizza(pub Vec<i32>);

/// A slice of a pizza, by index.
pub struct PizzaSlice<'a> {
    pub pizza: &'a Pizza,
    pub index: i32,
}

/// Someone eating a slice of a pizza.
pub struct PizzaConsumer<'a, 'b: 'a> {
    pub slice: PizzaSlice<'a>,
    pub pizza: &'b Pizza,
}

/// The consumer takes the slice at `index` of their pizza.
pub fn get_another_slice(c: &mut PizzaConsumer, index: i32)
    ensures
        *final(c).slice.pizza == *old(c).pizza,
        final(c).slice.index == index,
        *final(c).pizza == *old(c).pizza,
{
    c.slice = PizzaSlice { pizza: c.pizza, index: index };
}

} // verus!
