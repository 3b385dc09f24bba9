//! The filters that narrow a market query: a range of levels, and choices
//! among the values of a card's type, faction, rarity, foil and source.

use vstd::prelude::*;
use vstd::string::*;

verus! {

/// A filter over a range of numbers.
#[derive(Debug)]
pub struct Continuity {
    pub filter_name: String,
    pub filter_id: u32,
    pub start: u32,
    pub step_size: u32,
    pub end: u32,
    pub max: u32,
    pub min: u32,
}

impl Continuity {
    /// Whether this is the filter that lets every level through.
    pub open spec fn is_level(self) -> bool {
        &&& self.filter_name@ == "Level"@
        &&& self.filter_id == 1
        &&& self.start == 1
        &&& self.step_size == 1
        &&& self.end == 10
        &&& self.max == 100
        &&& self.min == 1
    }

    /// The filter that lets every level through.
    pub fn level() -> (filter: Continuity)
        ensures
            filter.is_level(),
    {
        Continuity {
            filter_name: "Level".to_string(),
            filter_id: 1,
            start: 1,
            step_size: 1,
            end: 10,
            max: 100,
            min: 1,
        }
    }
}

/// The attributes of a card that a query can choose values of.
#[derive(Debug, Clone, Copy, PartialEq, Eq, Hash, Structural)]
pub enum DiscreteFilter {
    Type,
    Faction,
    Rarity,
    Foil,
    Source,
}

impl DiscreteFilter {
    /// The name of the attribute.
    pub open spec fn name(self) -> Seq<char> {
        match self {
            DiscreteFilter::Type => "Type"@,
            DiscreteFilter::Faction => "Faction"@,
            DiscreteFilter::Rarity => "Rarity"@,
            DiscreteFilter::Foil => "Foil"@,
            DiscreteFilter::Source => "Source"@,
        }
    }

    /// The values the attribute can take, in the marketplace's order.
    pub open spec fn values(self) -> Seq<Seq<char>> {
        match self {
            DiscreteFilter::Type => seq!["Leaders"@, "Members"@],
            DiscreteFilter::Faction => seq![
                "Neutral"@,
                "Animal"@,
                "Plant"@,
                "Zombie"@,
                "Mech"@,
                "Dragon"@,
            ],
            DiscreteFilter::Rarity => seq!["Common"@, "Rare"@, "Epic"@, "Legendary"@],
            DiscreteFilter::Foil => seq!["Regular"@, "Gold"@],
            DiscreteFilter::Source => seq![
                "All"@,
                "Ahoy Box"@,
                "Ladder Chest"@,
                "Alchemy"@,
                "Reward"@,
                "Season Box"@,
            ],
        }
    }

    /// Gives the name of the attribute.
    pub fn to_string(&self) -> (name: String)
        ensures
            name@ == self.name(),
    {
        match self {
            DiscreteFilter::Type => "Type".to_string(),
            DiscreteFilter::Faction => "Faction".to_string(),
            DiscreteFilter::Rarity => "Rarity".to_string(),
            DiscreteFilter::Foil => "Foil".to_string(),
            DiscreteFilter::Source => "Source".to_string(),
        }
    }
}

/// One value an attribute can take: the name shown and the name sent.
#[derive(Debug)]
pub struct DiscreteFilterValue {
    pub value_name: String,
    pub value_id: String,
}

impl DiscreteFilterValue {
    /// The value shown as `value_name` and sent as `value_id`.
    pub fn new(value_name: &str, value_id: &str) -> (value: DiscreteFilterValue)
        ensures
            value.value_name@ == value_name@,
            value.value_id@ == value_id@,
    {
        DiscreteFilterValue { value_name: value_name.to_string(), value_id: value_id.to_string() }
    }
}

impl Clone for DiscreteFilterValue {
    fn clone(&self) -> (copy: Self)
        ensures
            copy == *self,
    {
        DiscreteFilterValue {
            value_name: self.value_name.clone(),
            value_id: self.value_id.clone(),
        }
    }
}

/// Whether `list` holds the values of `filter`, each shown and sent under the
/// same name, in the marketplace's order.
pub open spec fn holds_values_of(list: Seq<DiscreteFilterValue>, filter: DiscreteFilter) -> bool {
    &&& list.len() == filter.values().len()
    &&& forall|i: int|
        0 <= i < list.len() ==> (#[trigger] list[i]).value_name@ == filter.values()[i]
            && list[i].value_id@ == filter.values()[i]
}

/// Gives the values that the attribute `filter` can take.
pub fn get_discrete_filter(filter: DiscreteFilter) -> (list: Vec<DiscreteFilterValue>)
    ensures
        holds_values_of(list@, filter),
{
    let mut list: Vec<DiscreteFilterValue> = Vec::new();
    match filter {
        DiscreteFilter::Type => {
            list.push(DiscreteFilterValue::new("Leaders", "Leaders"));
            list.push(DiscreteFilterValue::new("Members", "Members"));
        },
        DiscreteFilter::Faction => {
            list.push(DiscreteFilterValue::new("Neutral", "Neutral"));
            list.push(DiscreteFilterValue::new("Animal", "Animal"));
            list.push(DiscreteFilterValue::new("Plant", "Plant"));
            list.push(DiscreteFilterValue::new("Zombie", "Zombie"));
            list.push(DiscreteFilterValue::new("Mech", "Mech"));
            list.push(DiscreteFilterValue::new("Dragon", "Dragon"));
        },
        DiscreteFilter::Rarity => {
            list.push(DiscreteFilterValue::new("Common", "Common"));
            list.push(DiscreteFilterValue::new("Rare", "Rare"));
            list.push(DiscreteFilterValue::new("Epic", "Epic"));
            list.push(DiscreteFilterValue::new("Legendary", "Legendary"));
        },
        DiscreteFilter::Foil => {
            list.push(DiscreteFilterValue::new("Regular", "Regular"));
            list.push(DiscreteFilterValue::new("Gold", "Gold"));
        },
        DiscreteFilter::Source => {
            list.push(DiscreteFilterValue::new("All", "All"));
            list.push(DiscreteFilterValue::new("Ahoy Box", "Ahoy Box"));
            list.push(DiscreteFilterValue::new("Ladder Chest", "Ladder Chest"));
            list.push(DiscreteFilterValue::new("Alchemy", "Alchemy"));
            list.push(DiscreteFilterValue::new("Reward", "Reward"));
            list.push(DiscreteFilterValue::new("Season Box", "Season Box"));
        },
    }
    list
}

/// A choice among the values of one attribute. An empty choice lets every
/// value through.
#[derive(Debug)]
pub struct Discrete {
    pub filter_name: String,
    pub filter_value_list: Vec<DiscreteFilterValue>,
    pub value_id_list: Vec<String>,
    pub filter_id_list: Vec<String>,
}

impl Discrete {
    /// Whether this is the choice of `chosen` among the values of `filter`.
    pub open spec fn chooses(self, filter: DiscreteFilter, chosen: Seq<String>) -> bool {
        &&& self.filter_name@ == filter.name()
        &&& holds_values_of(self.filter_value_list@, filter)
        &&& self.value_id_list@ == chosen
        &&& self.filter_id_list@ == chosen
    }

    /// The choice of `filter_list` among the types.
    pub fn filter_type(filter_list: Vec<String>) -> (choice: Discrete)
        ensures
            choice.chooses(DiscreteFilter::Type, filter_list@),
    {
        Discrete::with(DiscreteFilter::Type, filter_list)
    }

    /// The choice of `filter_list` among the factions.
    pub fn faction(filter_list: Vec<String>) -> (choice: Discrete)
        ensures
            choice.chooses(DiscreteFilter::Faction, filter_list@),
    {
        Discrete::with(DiscreteFilter::Faction, filter_list)
    }

    /// The choice of `filter_list` among the rarities.
    pub fn rarity(filter_list: Vec<String>) -> (choice: Discrete)
        ensures
            choice.chooses(DiscreteFilter::Rarity, filter_list@),
    {
        Discrete::with(DiscreteFilter::Rarity, filter_list)
    }

    /// The choice of `filter_list` among the foils.
    pub fn foil(filter_list: Vec<String>) -> (choice: Discrete)
        ensures
            choice.chooses(DiscreteFilter::Foil, filter_list@),
    {
        Discrete::with(DiscreteFilter::Foil, filter_list)
    }

    /// The choice of `filter_list` among the sources.
    pub fn source(filter_list: Vec<String>) -> (choice: Discrete)
        ensures
            choice.chooses(DiscreteFilter::Source, filter_list@),
    {
        Discrete::with(DiscreteFilter::Source, filter_list)
    }

    /// The choice of `filter_list` among the values of `filter`.
    pub fn with(filter: DiscreteFilter, filter_list: Vec<String>) -> (choice: Discrete)
        ensures
            choice.chooses(filter, filter_list@),
    {
        Discrete {
            filter_name: filter.to_string(),
            filter_value_list: get_discrete_filter(filter),
            value_id_list: filter_list.clone(),
            filter_id_list: filter_list,
        }
    }

    /// The empty choice among the values of `filter`.
    pub fn with_none(filter: DiscreteFilter) -> (choice: Discrete)
        ensures
            choice.chooses(filter, Seq::empty()),
    {
        let filter_value_list = get_discrete_filter(filter);
        Discrete {
            filter_name: filter.to_string(),
            filter_value_list,
            value_id_list: Vec::new(),
            filter_id_list: Vec::new(),
        }
    }
}

impl Clone for Discrete {
    fn clone(&self) -> (copy: Self)
        ensures
            copy.filter_name == self.filter_name,
            copy.filter_value_list@ == self.filter_value_list@,
            copy.value_id_list@ == self.value_id_list@,
            copy.filter_id_list@ == self.filter_id_list@,
    {
        Discrete {
            filter_name: self.filter_name.clone(),
            filter_value_list: self.filter_value_list.clone(),
            value_id_list: self.value_id_list.clone(),
            filter_id_list: self.filter_id_list.clone(),
        }
    }
}

} // verus!
