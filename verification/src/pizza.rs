//! A pizza, built topping by topping.

use vstd::prelude::*;

verus! {

#[derive(Debug, Clone, Copy, PartialEq, Eq, Structural)]
pub enum PizzaSize {
    Personal,
    Family,
}

#[derive(Debug, Clone, Copy, PartialEq, Eq, Structural)]
pub enum Veggies {
    Mushrooms,
    GreenPeppers,
    Onions,
    Tomatoes,
    Pineapples,
}

#[derive(Debug, Clone, Copy, PartialEq, Eq, Structural)]
pub enum Meats {
    Sausage,
    Chicken,
    Pepperoni,
    Bacon,
}

#[derive(Debug, Clone, Copy, PartialEq, Eq, Structural)]
pub enum PizzaToppings {
    Veggies(Veggies),
    Meats(Meats),
}

/// A pizza of one size with its toppings in the order they were put on.
#[derive(Debug)]
pub struct Pizza {
    size: PizzaSize,
    topping: Vec<PizzaToppings>,
}

/// A pizza as mathematics.
pub struct PizzaView {
    pub size: PizzaSize,
    pub toppings: Seq<PizzaToppings>,
}

impl View for Pizza {
    type V = PizzaView;

    closed spec fn view(&self) -> PizzaView {
        PizzaView { size: self.size, toppings: self.topping@ }
    }
}

impl Pizza {
    /// The pizza with one more topping, put on last.
    pub fn with(self, topping: PizzaToppings) -> (pizza: Self)
        ensures
            pizza@.size == self@.size,
            pizza@.toppings == self@.toppings.push(topping),
    {
        let mut pizza = self;
        pizza.topping.push(topping);
        pizza
    }

    /// A pizza of the given size without toppings.
    pub fn new(size: PizzaSize) -> (pizza: Self)
        ensures
            pizza@.size == size,
            pizza@.toppings == Seq::<PizzaToppings>::empty(),
    {
        Self { size: size, topping: Vec::new() }
    }

    /// The size.
    pub fn size(&self) -> (size: PizzaSize)
        ensures
            size == self@.size,
    {
        self.size
    }

    /// The toppings, the first one put on first.
    pub fn toppings(&self) -> (toppings: &Vec<PizzaToppings>)
        ensures
            toppings@ == self@.toppings,
    {
        &self.topping
    }
}

} // verus!
