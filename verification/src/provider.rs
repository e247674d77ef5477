//! What a provider's account holds: which of its resources carry the
//! consumption and the cost of each stream, and what can therefore be asked
//! of it.

use vstd::prelude::*;
use vstd::string::StringExecFns;
use crate::error::GlowmarktDataProviderError;
use crate::sync::Capabilities;
use crate::sync::DataKind;
use crate::sync::Stream;

verus! {

/// One resource of an account.
#[derive(Debug)]
pub struct Resource {
    pub id: String,
    /// What the resource measures, in the provider's words.
    pub name: String,
}

/// A group of resources that belong together, such as those of one meter.
#[derive(Debug)]
pub struct VirtualEntity {
    pub name: String,
    /// Ids of the resources in the group.
    pub resources: Vec<String>,
}

/// The ids of the four resources the library reads, as far as the account
/// has them.
#[derive(Debug)]
pub struct ResourceIds {
    pub gas_cost: Option<String>,
    pub gas_consumption: Option<String>,
    pub electricity_cost: Option<String>,
    pub electricity_consumption: Option<String>,
}

/// Name of the group whose resources come from the smart meter.
pub open spec fn meter_group() -> Seq<char> {
    "DCC Sourced"@
}

/// What the provider calls the resource of a stream and kind.
pub open spec fn resource_label(stream: Stream, kind: DataKind) -> Seq<char> {
    match (stream, kind) {
        (Stream::Electricity, DataKind::Consumption) => "electricity consumption"@,
        (Stream::Electricity, DataKind::Tariff) => "electricity cost"@,
        (Stream::Gas, DataKind::Consumption) => "gas consumption"@,
        (Stream::Gas, DataKind::Tariff) => "gas cost"@,
    }
}

/// The text of an optional string.
pub open spec fn text_of(value: Option<String>) -> Option<Seq<char>> {
    match value {
        Some(text) => Some(text@),
        None => None,
    }
}

/// Position of the first resource with the given id, if there is one.
pub open spec fn position_of(resources: Seq<Resource>, id: Seq<char>) -> Option<int>
    decreases resources.len(),
{
    if resources.len() == 0 {
        None
    } else {
        match position_of(resources.drop_last(), id) {
            Some(index) => Some(index),
            None => if resources.last().id@ == id {
                Some(resources.len() - 1)
            } else {
                None
            },
        }
    }
}

/// The id of the resource called `label` among those a group names: of
/// several, the one named last. Ids that the account does not know are
/// passed over.
pub open spec fn labelled(ids: Seq<String>, resources: Seq<Resource>, label: Seq<char>) -> Option<
    Seq<char>,
>
    decreases ids.len(),
{
    if ids.len() == 0 {
        None
    } else {
        match position_of(resources, ids.last()@) {
            Some(index) if resources[index].name@ == label => Some(resources[index].id@),
            _ => labelled(ids.drop_last(), resources, label),
        }
    }
}

/// Position of the first group with the given name, if there is one.
pub open spec fn group_position(entities: Seq<VirtualEntity>, name: Seq<char>) -> Option<int>
    decreases entities.len(),
{
    if entities.len() == 0 {
        None
    } else {
        match group_position(entities.drop_last(), name) {
            Some(index) => Some(index),
            None => if entities.last().name@ == name {
                Some(entities.len() - 1)
            } else {
                None
            },
        }
    }
}

/// The resource of a stream and kind, read off the first group that holds
/// the smart meter's resources; `None` where there is no such group or it
/// names no such resource.
pub open spec fn meter_resource(
    entities: Seq<VirtualEntity>,
    resources: Seq<Resource>,
    stream: Stream,
    kind: DataKind,
) -> Option<Seq<char>> {
    match group_position(entities, meter_group()) {
        Some(index) => labelled(entities[index].resources@, resources, resource_label(stream, kind)),
        None => None,
    }
}

fn same_text(left: &str, right: &str) -> (same: bool)
    ensures
        same == (left@ == right@),
{
    String::from_str(left) == String::from_str(right)
}

fn find_resource(resources: &Vec<Resource>, id: &String) -> (found: Option<usize>)
    ensures
        found matches Some(index) ==> index < resources.len() && position_of(resources@, id@)
            == Some(index as int),
        found is None ==> position_of(resources@, id@) is None,
{
    let mut index: usize = 0;
    while index < resources.len()
        invariant
            index <= resources.len(),
            position_of(resources@.take(index as int), id@) is None,
        decreases resources.len() - index,
    {
        proof {
            lemma_position_extends(resources@, id@, index as int);
        }
        if resources[index].id == *id {
            proof {
                lemma_position_stays(resources@, id@, index as int + 1);
            }
            return Some(index);
        }
        index = index + 1;
    }
    proof {
        assert(resources@.take(index as int) =~= resources@);
    }
    None
}

/// Looking at one more resource finds the id there, or nowhere yet.
proof fn lemma_position_extends(resources: Seq<Resource>, id: Seq<char>, index: int)
    requires
        0 <= index < resources.len(),
        position_of(resources.take(index), id) is None,
    ensures
        position_of(resources.take(index + 1), id) == (if resources[index].id@ == id {
            Some(index)
        } else {
            None
        }),
{
    let upto = resources.take(index + 1);
    assert(upto.drop_last() =~= resources.take(index));
    assert(upto.last() == resources[index]);
}

/// What is found among the first resources is found among all of them.
proof fn lemma_position_stays(resources: Seq<Resource>, id: Seq<char>, upto: int)
    requires
        0 <= upto <= resources.len(),
        position_of(resources.take(upto), id) is Some,
    ensures
        position_of(resources, id) == position_of(resources.take(upto), id),
    decreases resources.len() - upto,
{
    if upto < resources.len() {
        let next = resources.take(upto + 1);
        assert(next.drop_last() =~= resources.take(upto));
        lemma_position_stays(resources, id, upto + 1);
    } else {
        assert(resources.take(upto) =~= resources);
    }
}

/// Looking at one more group finds the name there, or nowhere yet.
proof fn lemma_group_extends(entities: Seq<VirtualEntity>, name: Seq<char>, index: int)
    requires
        0 <= index < entities.len(),
        group_position(entities.take(index), name) is None,
    ensures
        group_position(entities.take(index + 1), name) == (if entities[index].name@ == name {
            Some(index)
        } else {
            None
        }),
{
    let upto = entities.take(index + 1);
    assert(upto.drop_last() =~= entities.take(index));
    assert(upto.last() == entities[index]);
}

/// A group that is found among the first groups is found among all of them.
proof fn lemma_group_stays(entities: Seq<VirtualEntity>, name: Seq<char>, upto: int)
    requires
        0 <= upto <= entities.len(),
        group_position(entities.take(upto), name) is Some,
    ensures
        group_position(entities, name) == group_position(entities.take(upto), name),
    decreases entities.len() - upto,
{
    if upto < entities.len() {
        let next = entities.take(upto + 1);
        assert(next.drop_last() =~= entities.take(upto));
        lemma_group_stays(entities, name, upto + 1);
    } else {
        assert(entities.take(upto) =~= entities);
    }
}

/// Picks the four resources out of what an account holds. Only the first
/// group called "DCC Sourced" is read, and in it every resource the account
/// knows by its id is classed by its name: "electricity consumption",
/// "electricity cost", "gas consumption" or "gas cost".
pub fn get_resource_ids(entities: &Vec<VirtualEntity>, all_resources: &Vec<Resource>) -> (ids:
    ResourceIds)
    ensures
        text_of(ids.electricity_consumption) == meter_resource(
            entities@,
            all_resources@,
            Stream::Electricity,
            DataKind::Consumption,
        ),
        text_of(ids.electricity_cost) == meter_resource(
            entities@,
            all_resources@,
            Stream::Electricity,
            DataKind::Tariff,
        ),
        text_of(ids.gas_consumption) == meter_resource(
            entities@,
            all_resources@,
            Stream::Gas,
            DataKind::Consumption,
        ),
        text_of(ids.gas_cost) == meter_resource(
            entities@,
            all_resources@,
            Stream::Gas,
            DataKind::Tariff,
        ),
{
    let mut ids = ResourceIds {
        gas_cost: None,
        gas_consumption: None,
        electricity_cost: None,
        electricity_consumption: None,
    };
    let mut group: usize = 0;
    while group < entities.len()
        invariant
            group <= entities.len(),
            group_position(entities@.take(group as int), meter_group()) is None,
            ids.gas_cost is None,
            ids.gas_consumption is None,
            ids.electricity_cost is None,
            ids.electricity_consumption is None,
        decreases entities.len() - group,
    {
        proof {
            lemma_group_extends(entities@, meter_group(), group as int);
        }
        if same_text(entities[group].name.as_str(), "DCC Sourced") {
            proof {
                lemma_group_stays(entities@, meter_group(), group as int + 1);
            }
            let named = &entities[group].resources;
            let mut index: usize = 0;
            while index < named.len()
                invariant
                    index <= named.len(),
                    text_of(ids.electricity_consumption) == labelled(
                        named@.take(index as int),
                        all_resources@,
                        resource_label(Stream::Electricity, DataKind::Consumption),
                    ),
                    text_of(ids.electricity_cost) == labelled(
                        named@.take(index as int),
                        all_resources@,
                        resource_label(Stream::Electricity, DataKind::Tariff),
                    ),
                    text_of(ids.gas_consumption) == labelled(
                        named@.take(index as int),
                        all_resources@,
                        resource_label(Stream::Gas, DataKind::Consumption),
                    ),
                    text_of(ids.gas_cost) == labelled(
                        named@.take(index as int),
                        all_resources@,
                        resource_label(Stream::Gas, DataKind::Tariff),
                    ),
                decreases named.len() - index,
            {
                proof {
                    let upto = named@.take(index as int + 1);
                    assert(upto.drop_last() =~= named@.take(index as int));
                    assert(upto.last() == named@[index as int]);
                    reveal_strlit("electricity consumption");
                    reveal_strlit("electricity cost");
                    reveal_strlit("gas consumption");
                    reveal_strlit("gas cost");
                    assert("electricity consumption"@.len() == 23);
                    assert("electricity cost"@.len() == 16);
                    assert("gas consumption"@.len() == 15);
                    assert("gas cost"@.len() == 8);
                }
                match find_resource(all_resources, &named[index]) {
                    Some(position) => {
                        let resource = &all_resources[position];
                        let name = resource.name.as_str();
                        if same_text(name, "electricity cost") {
                            ids.electricity_cost = Some(resource.id.clone());
                        } else if same_text(name, "electricity consumption") {
                            ids.electricity_consumption = Some(resource.id.clone());
                        } else if same_text(name, "gas cost") {
                            ids.gas_cost = Some(resource.id.clone());
                        } else if same_text(name, "gas consumption") {
                            ids.gas_consumption = Some(resource.id.clone());
                        }
                    },
                    None => {},
                }
                index = index + 1;
            }
            proof {
                assert(named@.take(index as int) =~= named@);
            }
            return ids;
        }
        group = group + 1;
    }
    proof {
        assert(entities@.take(group as int) =~= entities@);
    }
    ids
}

impl ResourceIds {
    /// The id of the resource of a stream and kind, if the account has it.
    pub open spec fn resource(&self, stream: Stream, kind: DataKind) -> Option<String> {
        match (stream, kind) {
            (Stream::Electricity, DataKind::Consumption) => self.electricity_consumption,
            (Stream::Electricity, DataKind::Tariff) => self.electricity_cost,
            (Stream::Gas, DataKind::Consumption) => self.gas_consumption,
            (Stream::Gas, DataKind::Tariff) => self.gas_cost,
        }
    }

    /// Whether the consumption of `stream` can be asked for.
    pub fn has_consumption(&self, stream: Stream) -> (has: bool)
        ensures
            has == self.resource(stream, DataKind::Consumption).is_some(),
    {
        match stream {
            Stream::Electricity => self.electricity_consumption.is_some(),
            Stream::Gas => self.gas_consumption.is_some(),
        }
    }

    /// Whether the tariff history of `stream` can be asked for.
    pub fn has_tariff_history(&self, stream: Stream) -> (has: bool)
        ensures
            has == self.resource(stream, DataKind::Tariff).is_some(),
    {
        match stream {
            Stream::Electricity => self.electricity_cost.is_some(),
            Stream::Gas => self.gas_cost.is_some(),
        }
    }

    /// What a pass may ask of the account besides consumption.
    pub fn capabilities(&self) -> (capabilities: Capabilities)
        ensures
            capabilities.electricity_tariff_history == self.electricity_cost.is_some(),
            capabilities.gas_tariff_history == self.gas_cost.is_some(),
    {
        Capabilities {
            electricity_tariff_history: self.electricity_cost.is_some(),
            gas_tariff_history: self.gas_cost.is_some(),
        }
    }

    /// The id of the resource to ask for a stream and kind. Where the
    /// account has none, the call cannot be made, and asking again will not
    /// help: the error names what is missing.
    pub fn require(&self, stream: Stream, kind: DataKind) -> (id: Result<
        &String,
        GlowmarktDataProviderError,
    >)
        ensures
            id matches Ok(found) ==> self.resource(stream, kind) == Some(*found),
            id matches Err(error) ==> {
                &&& self.resource(stream, kind) is None
                &&& error matches GlowmarktDataProviderError::MissingResource(label)
                &&& label@ == resource_label(stream, kind)
                &&& !error.retryable()
            },
    {
        let (held, label) = match (stream, kind) {
            (Stream::Electricity, DataKind::Consumption) => (
                &self.electricity_consumption,
                "electricity consumption",
            ),
            (Stream::Electricity, DataKind::Tariff) => (&self.electricity_cost, "electricity cost"),
            (Stream::Gas, DataKind::Consumption) => (&self.gas_consumption, "gas consumption"),
            (Stream::Gas, DataKind::Tariff) => (&self.gas_cost, "gas cost"),
        };
        match held {
            Some(found) => Ok(found),
            None => Err(GlowmarktDataProviderError::MissingResource(String::from_str(label))),
        }
    }
}

} // verus!
