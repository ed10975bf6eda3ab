//! Enumerations shared by the records: slot kinds, reporter levels, case
//! status and the category bitmask.
use std::collections::BTreeMap;
use vstd::prelude::*;

verus! {

broadcast use vstd::laws_cmp::group_laws_cmp;

/// The kind of record a slot holds; the discriminant every access checks.
#[derive(Clone, Copy, Debug, PartialEq, Eq, Structural)]
pub enum HapiAccountType {
    /// Nothing has been written to the slot.
    Uninitialized,
    /// A community record.
    Community,
    /// A network record.
    Network,
    /// A reporter record.
    Reporter,
    /// A case record.
    Case,
    /// An address record.
    Address,
}

impl HapiAccountType {
    /// A slot starts out uninitialized.
    pub fn default() -> (r: HapiAccountType)
        ensures
            r == HapiAccountType::Uninitialized,
    {
        HapiAccountType::Uninitialized
    }
}

/// A reporter's capability level.
#[derive(Clone, Copy, Debug, PartialEq, Eq, Structural)]
pub enum ReporterType {
    /// No right to report or update anything.
    Inactive,
    /// May create and update address records.
    Tracer,
    /// May also create cases, and update the cases it created.
    Full,
    /// May create and update any case and address record.
    Authority,
}

impl ReporterType {
    /// A reporter starts out inactive.
    pub fn default() -> (r: ReporterType)
        ensures
            r == ReporterType::Inactive,
    {
        ReporterType::Inactive
    }
}

/// Whether a case is still being worked on.
#[derive(Clone, Copy, Debug, PartialEq, Eq, Structural)]
pub enum CaseStatus {
    /// The case is open.
    Open,
    /// The case is closed.
    Closed,
}

/// Illicit-activity and risk categories.
#[derive(Clone, Copy, Debug, PartialEq, Eq, Structural)]
pub enum Category {
    Safe,
    WalletService,
    MerchantService,
    MiningPool,
    LowRiskExchange,
    MediumRiskExchange,
    DeFi,
    OTCBroker,
    ATM,
    Gambling,
    IllicitOrganization,
    Mixer,
    DarknetService,
    Scam,
    Ransomware,
    Theft,
    Counterfeit,
    TerroristFinancing,
    Sanctions,
    ChildAbuse,
}

/// A set of categories, one bit per category.
pub type CategorySet = u32;

/// The union of every category's bit; a set with any other bit is invalid.
pub const ALL_CATEGORIES: u32 = 524287;

/// Number of distinct values of `Category`.
pub const CATEGORY_COUNT: usize = 20;

impl Category {
    /// The category's bit in a `CategorySet`. `Safe` is the empty mask.
    pub open spec fn spec_mask(self) -> u32 {
        match self {
            Category::Safe => 0,
            Category::WalletService => 1,
            Category::MerchantService => 2,
            Category::MiningPool => 4,
            Category::LowRiskExchange => 8,
            Category::MediumRiskExchange => 16,
            Category::DeFi => 32,
            Category::OTCBroker => 64,
            Category::ATM => 128,
            Category::Gambling => 256,
            Category::IllicitOrganization => 512,
            Category::Mixer => 1024,
            Category::DarknetService => 2048,
            Category::Scam => 4096,
            Category::Ransomware => 8192,
            Category::Theft => 16384,
            Category::Counterfeit => 32768,
            Category::TerroristFinancing => 65536,
            Category::Sanctions => 131072,
            Category::ChildAbuse => 262144,
        }
    }

    /// The category's bit in a `CategorySet`.
    pub fn mask(self) -> (r: u32)
        ensures
            r == self.spec_mask(),
    {
        match self {
            Category::Safe => 0,
            Category::WalletService => 1,
            Category::MerchantService => 2,
            Category::MiningPool => 4,
            Category::LowRiskExchange => 8,
            Category::MediumRiskExchange => 16,
            Category::DeFi => 32,
            Category::OTCBroker => 64,
            Category::ATM => 128,
            Category::Gambling => 256,
            Category::IllicitOrganization => 512,
            Category::Mixer => 1024,
            Category::DarknetService => 2048,
            Category::Scam => 4096,
            Category::Ransomware => 8192,
            Category::Theft => 16384,
            Category::Counterfeit => 32768,
            Category::TerroristFinancing => 65536,
            Category::Sanctions => 131072,
            Category::ChildAbuse => 262144,
        }
    }

    /// Every category, in declaration order.
    pub open spec fn all() -> Seq<Category> {
        seq![
            Category::Safe,
            Category::WalletService,
            Category::MerchantService,
            Category::MiningPool,
            Category::LowRiskExchange,
            Category::MediumRiskExchange,
            Category::DeFi,
            Category::OTCBroker,
            Category::ATM,
            Category::Gambling,
            Category::IllicitOrganization,
            Category::Mixer,
            Category::DarknetService,
            Category::Scam,
            Category::Ransomware,
            Category::Theft,
            Category::Counterfeit,
            Category::TerroristFinancing,
            Category::Sanctions,
            Category::ChildAbuse,
        ]
    }

    /// The set holding this category and the categories of `rhs`.
    pub fn bitor(self, rhs: CategorySet) -> (r: CategorySet)
        ensures
            r == self.spec_mask() | rhs,
    {
        self.mask() | rhs
    }

    /// The set of two categories.
    pub fn union(self, rhs: Category) -> (r: CategorySet)
        ensures
            r == self.spec_mask() | rhs.spec_mask(),
    {
        self.mask() | rhs.mask()
    }

    /// A map from each category's bit to `false`: no category chosen yet.
    pub fn new_map() -> (r: BTreeMap<u32, bool>)
        ensures
            r@ == Map::new(
                |k: u32| exists|i: int| 0 <= i < Category::all().len() && Category::all()[i].spec_mask() == k,
                |k: u32| false,
            ),
    {
        let mut map: BTreeMap<u32, bool> = BTreeMap::new();
        let mut i: usize = 0;
        while i < CATEGORY_COUNT
            invariant
                i <= CATEGORY_COUNT,
                map@ == Map::new(
                    |k: u32| exists|j: int| 0 <= j < i && Category::all()[j].spec_mask() == k,
                    |k: u32| false,
                ),
            decreases CATEGORY_COUNT - i,
        {
            let c = category_at(i);
            map.insert(c.mask(), false);
            proof {
                assert forall|k: u32| #[trigger]
                    map@.contains_key(k) == (exists|j: int|
                        0 <= j < i + 1 && Category::all()[j].spec_mask() == k) by {
                    if exists|j: int| 0 <= j < i + 1 && Category::all()[j].spec_mask() == k {
                        let j = choose|j: int| 0 <= j < i + 1 && Category::all()[j].spec_mask() == k;
                        if j < i {
                        } else {
                            assert(k == c.spec_mask());
                        }
                    }
                }
                assert(map@ =~= Map::new(
                    |k: u32| exists|j: int| 0 <= j < i + 1 && Category::all()[j].spec_mask() == k,
                    |k: u32| false,
                ));
            }
            i = i + 1;
        }
        map
    }
}

/// The category at position `i` of the declaration.
pub fn category_at(i: usize) -> (r: Category)
    requires
        i < CATEGORY_COUNT,
    ensures
        r == Category::all()[i as int],
{
    match i {
        0 => Category::Safe,
        1 => Category::WalletService,
        2 => Category::MerchantService,
        3 => Category::MiningPool,
        4 => Category::LowRiskExchange,
        5 => Category::MediumRiskExchange,
        6 => Category::DeFi,
        7 => Category::OTCBroker,
        8 => Category::ATM,
        9 => Category::Gambling,
        10 => Category::IllicitOrganization,
        11 => Category::Mixer,
        12 => Category::DarknetService,
        13 => Category::Scam,
        14 => Category::Ransomware,
        15 => Category::Theft,
        16 => Category::Counterfeit,
        17 => Category::TerroristFinancing,
        18 => Category::Sanctions,
        _ => Category::ChildAbuse,
    }
}

/// Whether a category set holds only known categories.
pub open spec fn valid_category_set(set: CategorySet) -> bool {
    set & !ALL_CATEGORIES == 0
}

/// Whether a category set holds only known categories.
pub fn is_valid_category_set(set: CategorySet) -> (r: bool)
    ensures
        r == valid_category_set(set),
{
    set & !ALL_CATEGORIES == 0
}

/// Membership in a category bitmask.
pub trait CategorySetBitmask {
    /// Whether the set holds `category`.
    fn contains(self, category: Category) -> bool;
}

impl CategorySetBitmask for CategorySet {
    fn contains(self, category: Category) -> (r: bool)
        ensures
            r == (self & category.spec_mask() != 0),
    {
        self & category.mask() != 0
    }
}

} // verus!
