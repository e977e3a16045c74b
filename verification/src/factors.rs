//! The factors of a bean: its habits, its diet and its wealth. They are drawn
//! when the bean is made and decide what it is likely to die of.
//!
//! A value is an exact fixed-point number in millionths.

use vstd::prelude::*;
use vstd::string::StringExecFns;

verus! {

/// A factor has a name and a value.
pub trait Factor {
    fn get_name(&self) -> String;

    fn get_value(&self) -> u64;
}

/// Sugar in the diet of a bean, as a ratio to the recommended intake.
#[derive(Debug, Clone, Copy, PartialEq, Eq, Structural)]
pub struct Sugar {
    pub value: u64,
}

impl Factor for Sugar {
    fn get_name(&self) -> (name: String)
        ensures
            name@ == "Sugar"@,
    {
        String::from_str("Sugar")
    }

    fn get_value(&self) -> (value: u64)
        ensures
            value == self.value,
    {
        self.value
    }
}

/// Salt in the diet of a bean, as a ratio to the recommended intake.
#[derive(Debug, Clone, Copy, PartialEq, Eq, Structural)]
pub struct Salt {
    pub value: u64,
}

impl Factor for Salt {
    fn get_name(&self) -> (name: String)
        ensures
            name@ == "Salt"@,
    {
        String::from_str("Salt")
    }

    fn get_value(&self) -> (value: u64)
        ensures
            value == self.value,
    {
        self.value
    }
}

/// Fat in the diet of a bean, as a ratio to the recommended intake.
#[derive(Debug, Clone, Copy, PartialEq, Eq, Structural)]
pub struct Fat {
    pub value: u64,
}

impl Factor for Fat {
    fn get_name(&self) -> (name: String)
        ensures
            name@ == "Fat"@,
    {
        String::from_str("Fat")
    }

    fn get_value(&self) -> (value: u64)
        ensures
            value == self.value,
    {
        self.value
    }
}

/// Vitamins in the diet of a bean, as a ratio to the recommended intake.
#[derive(Debug, Clone, Copy, PartialEq, Eq, Structural)]
pub struct Vitamins {
    pub value: u64,
}

impl Factor for Vitamins {
    fn get_name(&self) -> (name: String)
        ensures
            name@ == "Vitamins"@,
    {
        String::from_str("Vitamins")
    }

    fn get_value(&self) -> (value: u64)
        ensures
            value == self.value,
    {
        self.value
    }
}

/// The wealth of a bean, from none at 0.0 to the most at 1.0.
#[derive(Debug, Clone, Copy, PartialEq, Eq, Structural)]
pub struct Wealth {
    pub value: u64,
}

impl Factor for Wealth {
    fn get_name(&self) -> (name: String)
        ensures
            name@ == "Wealth"@,
    {
        String::from_str("Wealth")
    }

    fn get_value(&self) -> (value: u64)
        ensures
            value == self.value,
    {
        self.value
    }
}

/// All the factors of one bean.
#[derive(Debug, Clone, Copy, PartialEq, Eq, Structural)]
pub struct Factors {
    pub alcoholism: bool,
    pub binge_drinker: bool,
    pub smokes_weed: bool,
    pub smokes_cigarettes: bool,
    pub smokes_vape: bool,
    pub consumes_hard_drugs: bool,
    pub sugar: Sugar,
    pub salt: Salt,
    pub fat: Fat,
    pub vitamins: Vitamins,
    pub wealth: Wealth,
}

impl Factors {
    pub fn new(
        alcoholism: bool,
        binge_drinker: bool,
        smokes_weed: bool,
        smokes_cigarettes: bool,
        smokes_vape: bool,
        consumes_hard_drugs: bool,
        sugar: Sugar,
        salt: Salt,
        fat: Fat,
        vitamins: Vitamins,
        wealth: Wealth,
    ) -> (factors: Factors)
        ensures
            factors == (Factors {
                alcoholism,
                binge_drinker,
                smokes_weed,
                smokes_cigarettes,
                smokes_vape,
                consumes_hard_drugs,
                sugar,
                salt,
                fat,
                vitamins,
                wealth,
            }),
    {
        Factors {
            alcoholism,
            binge_drinker,
            smokes_weed,
            smokes_cigarettes,
            smokes_vape,
            consumes_hard_drugs,
            sugar,
            salt,
            fat,
            vitamins,
            wealth,
        }
    }
}

} // verus!
