//! Builder for `security.properties`.

use crate::controller::{NifiRoleGroupConfig, NifiRoleGroupConfigView};
use crate::framework::writer;
use crate::framework::writer::{to_java_properties_string, PropertiesWriterError};
use crate::list::{add_item, empty_list};
use crate::ordered_map;
use crate::ordered_map::{OrderedMap, StringMap};
use vstd::prelude::*;

verus! {

/// The settings of the JVM's DNS cache, and over them those of the user.
pub open spec fn security_settings(rg: NifiRoleGroupConfigView) -> Map<Seq<char>, Seq<char>> {
    Map::empty().insert("networkaddress.cache.ttl"@, "30"@).insert(
        "networkaddress.cache.negative.ttl"@,
        "0"@,
    ).union_prefer_right(rg.config_overrides.security_properties)
}

/// The entries of a map in the order of their keys, as properties that all have a value.
pub open spec fn properties_in_order(map: Map<Seq<char>, Seq<char>>) -> Seq<
    (Seq<char>, Option<Seq<char>>),
> {
    ordered_map::ordered_entries(map).map_values(
        |entry: (Seq<char>, Seq<char>)| (entry.0, Some(entry.1)),
    )
}

/// The entries of a map in the order of their keys, as properties that all have a value.
pub fn list_properties(map: &StringMap) -> (properties: Vec<(String, Option<String>)>)
    ensures
        properties.deep_view() == properties_in_order(map@),
{
    let ghost entries = ordered_map::ordered_entries(map@);
    let mut properties: Vec<(String, Option<String>)> = empty_list();
    let count: usize = map.len();
    let mut i: usize = 0;
    proof {
        assert(properties_in_order(map@).take(0) =~= Seq::empty());
    }
    while i < count
        invariant
            i <= count,
            count == entries.len(),
            entries == ordered_map::ordered_entries(map@),
            properties.deep_view() == properties_in_order(map@).take(i as int),
        decreases count - i,
    {
        let (key, value) = map.entry(i);
        add_item(&mut properties, (key.clone(), Some(value.clone())));
        proof {
            let all = properties_in_order(map@);
            assert(all.take(i as int).push(all[i as int]) =~= all.take(i + 1));
        }
        i = i + 1;
    }
    proof {
        assert(properties_in_order(map@).take(i as int) =~= properties_in_order(map@));
    }
    properties
}

/// Whether a text may be the file of a role group; none stands for bytes that are no text.
pub open spec fn may_be_file(rg: NifiRoleGroupConfigView, file: Option<Seq<char>>) -> bool {
    writer::may_be_file(properties_in_order(security_settings(rg)), file)
}

/// Builds the file.
pub fn build(rg: &NifiRoleGroupConfig) -> (result: Result<String, PropertiesWriterError>)
    ensures
        may_be_file(rg.deep_view(), writer::written_text(result)),
        result.is_err() ==> result->Err_0 == PropertiesWriterError::FromUtf8,
        writer::all_written_whole(properties_in_order(security_settings(rg.deep_view())))
            ==> writer::written_text(result) == writer::text_of(
            writer::encoded(
                writer::properties_file(properties_in_order(security_settings(rg.deep_view()))),
            ),
        ),
        writer::all_ascii(properties_in_order(security_settings(rg.deep_view()))) ==> result.is_ok()
            && result.unwrap()@ == writer::properties_file(
            properties_in_order(security_settings(rg.deep_view())),
        ),
{
    let mut settings: StringMap = OrderedMap::new();
    settings.put("networkaddress.cache.ttl", "30");
    settings.put("networkaddress.cache.negative.ttl", "0");
    settings.extend(&rg.config_overrides.security_properties);
    to_java_properties_string(&list_properties(&settings))
}

/// Settings of the user win over those of the operator, and names are cached for half a minute
/// where the user says nothing of it.
pub proof fn law_overrides_win(rg: NifiRoleGroupConfigView, key: Seq<char>)
    ensures
        rg.config_overrides.security_properties.dom().contains(key) ==> security_settings(
            rg,
        ).dom().contains(key) && security_settings(rg)[key]
            == rg.config_overrides.security_properties[key],
        !rg.config_overrides.security_properties.dom().contains("networkaddress.cache.ttl"@)
            ==> security_settings(rg)["networkaddress.cache.ttl"@] == "30"@,
        !rg.config_overrides.security_properties.dom().contains(
            "networkaddress.cache.negative.ttl"@,
        ) ==> security_settings(rg)["networkaddress.cache.negative.ttl"@] == "0"@,
{
    assert("networkaddress.cache.ttl"@.len() != "networkaddress.cache.negative.ttl"@.len()) by {
        reveal_strlit("networkaddress.cache.ttl");
        reveal_strlit("networkaddress.cache.negative.ttl");
    }
}

} // verus!
