use vstd::prelude::*;

verus! {

/// Main product category of a treasury.
#[derive(Debug, Clone, Copy, PartialEq, Eq, Structural)]
pub enum Category {
    Default,
    Vesting,
}

/// Finer classification of a treasury.
#[derive(Debug, Clone, Copy, PartialEq, Eq, Structural)]
pub enum SubCategory {
    Default,
    Advisor,
    Development,
    Foundation,
    Investor,
    Marketing,
    Partnership,
    Seed,
    Team,
    Community,
}

impl Category {
    pub open spec fn spec_tag(self) -> u8 {
        match self {
            Category::Default => 0,
            Category::Vesting => 1,
        }
    }

    /// The tag stored in a record.
    pub fn as_u8(&self) -> (r: u8)
        ensures
            r == self.spec_tag(),
    {
        match self {
            Category::Default => 0,
            Category::Vesting => 1,
        }
    }
}

impl SubCategory {
    pub open spec fn spec_tag(self) -> u8 {
        match self {
            SubCategory::Default => 0,
            SubCategory::Advisor => 1,
            SubCategory::Development => 2,
            SubCategory::Foundation => 3,
            SubCategory::Investor => 4,
            SubCategory::Marketing => 5,
            SubCategory::Partnership => 6,
            SubCategory::Seed => 7,
            SubCategory::Team => 8,
            SubCategory::Community => 9,
        }
    }

    /// The tag stored in a record.
    pub fn as_u8(&self) -> (r: u8)
        ensures
            r == self.spec_tag(),
    {
        match self {
            SubCategory::Default => 0,
            SubCategory::Advisor => 1,
            SubCategory::Development => 2,
            SubCategory::Foundation => 3,
            SubCategory::Investor => 4,
            SubCategory::Marketing => 5,
            SubCategory::Partnership => 6,
            SubCategory::Seed => 7,
            SubCategory::Team => 8,
            SubCategory::Community => 9,
        }
    }
}

} // verus!
