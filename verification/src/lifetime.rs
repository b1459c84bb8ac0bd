//! A person who may own a car they do not outlive: buying, selling and trading cars.
use vstd::prelude::*;

verus! {

/// A car.
pub struct Car {
    pub model: String,
}

/// A person, who holds at most one car.
pub struct Person<'a> {
    car: Option<&'a Car>,
}

impl<'a> Person<'a> {
    /// The car the person holds.
    pub closed spec fn holding(&self) -> Option<Car> {
        match self.car {
            Some(c) => Some(*c),
            None => None,
        }
    }

    /// A person without a car.
    pub fn new() -> (r: Person<'a>)
        ensures
            r.holding() is None,
    {
        Person { car: None }
    }

    /// The car the person holds, if any.
    pub fn current_car(&self) -> (r: Option<&'a Car>)
        ensures
            r matches Some(c) ==> self.holding() == Some(*c),
            r is None <==> self.holding() is None,
    {
        self.car
    }

    /// The person now holds `c`, in place of any car they held.
    pub fn buy_car(&mut self, c: &'a Car)
        ensures
            final(self).holding() == Some(*c),
    {
        self.car = Some(c);
    }

    /// The person no longer holds a car.
    pub fn sell_car(&mut self)
        ensures
            final(self).holding() is None,
    {
        self.car = None;
    }

    /// The two people exchange the cars they hold.
    pub fn trade_with(&mut self, other: &mut Person<'a>)
        ensures
            final(self).holding() == old(other).holding(),
            final(other).holding() == old(self).holding(),
    {
        let tmp = other.car;
        other.car = self.car;
        self.car = tmp;
    }
}

/// Law: trading twice gives each person back the car they held.
pub proof fn law_trade_twice(a0: Option<Car>, b0: Option<Car>, a1: Option<Car>, b1: Option<Car>, a2: Option<Car>, b2: Option<Car>)
    requires
        a1 == b0,
        b1 == a0,
        a2 == b1,
        b2 == a1,
    ensures
        a2 == a0,
        b2 == b0,
{
}

} // verus!
