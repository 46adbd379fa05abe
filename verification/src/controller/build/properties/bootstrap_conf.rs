//! Builder for `bootstrap.conf`.

use crate::controller::build::graceful_shutdown;
use crate::controller::build::graceful_shutdown::timeout_properties;
use crate::controller::build::properties;
use crate::controller::build::properties::{format_properties, Error};
use crate::controller::NifiRoleGroupConfig;
use crate::ordered_map::{OrderedMap, StringMap};
use crate::text;
use crate::text::{concat2, number_text};
use vstd::prelude::*;

verus! {

/// How NiFi is started.
pub open spec fn launch_properties() -> Map<Seq<char>, Seq<char>> {
    Map::empty().insert("java"@, "java"@).insert("run.as"@, ""@).insert(
        "preserve.environment"@,
        "false"@,
    ).insert("lib.dir"@, "./lib"@).insert("conf.dir"@, "./conf"@)
}

/// The arguments of the JVM, numbered from one.
pub open spec fn with_jvm_arguments(
    properties: Map<Seq<char>, Seq<char>>,
    arguments: Seq<Seq<char>>,
) -> Map<Seq<char>, Seq<char>>
    decreases arguments.len(),
{
    if arguments.len() == 0 {
        properties
    } else {
        with_jvm_arguments(properties, arguments.drop_last()).insert(
            "java.arg."@ + text::decimal(arguments.len()),
            arguments.last(),
        )
    }
}

/// All properties: those of the operator, and over them those of the user.
pub open spec fn bootstrap_properties(
    timeout_seconds: Option<u64>,
    arguments: Seq<Seq<char>>,
    overrides: Map<Seq<char>, Seq<char>>,
) -> Map<Seq<char>, Seq<char>> {
    with_jvm_arguments(
        launch_properties().union_prefer_right(
            graceful_shutdown::shutdown_properties(timeout_seconds),
        ),
        arguments,
    ).union_prefer_right(overrides)
}

/// Adds how NiFi is started.
pub fn add_launch_properties(properties: &mut StringMap)
    ensures
        final(properties)@ == old(properties)@.union_prefer_right(launch_properties()),
{
    let ghost before = properties@;
    // The command with which NiFi is run.
    properties.put("java", "java");
    // The user that runs NiFi: the one of the container.
    properties.put("run.as", "");
    properties.put("preserve.environment", "false");
    properties.put("lib.dir", "./lib");
    properties.put("conf.dir", "./conf");
    proof {
        assert(properties@ =~= before.union_prefer_right(launch_properties()));
    }
}

/// The arguments of the JVM, numbered from one.
pub fn add_jvm_arguments(properties: &mut StringMap, arguments: &Vec<String>)
    ensures
        final(properties)@ == with_jvm_arguments(old(properties)@, arguments.deep_view()),
{
    let ghost before = properties@;
    let ghost all = arguments.deep_view();
    let mut i: usize = 0;
    proof {
        assert(all.take(0) =~= Seq::empty());
    }
    while i < arguments.len()
        invariant
            i <= arguments.len(),
            all == arguments.deep_view(),
            properties@ == with_jvm_arguments(before, all.take(i as int)),
        decreases arguments.len() - i,
    {
        let key = concat2("java.arg.", number_text(i as u64 + 1).as_str());
        properties.put(key.as_str(), arguments[i].as_str());
        proof {
            let next = all.take(i + 1);
            assert(next.drop_last() =~= all.take(i as int));
            assert(next.last() == arguments[i as int]@);
        }
        i = i + 1;
    }
    proof {
        assert(all.take(i as int) =~= all);
    }
}

/// Builds the file from the merged arguments of the JVM, which are missing where they cannot be
/// merged.
pub fn build_file(
    timeout_seconds: Option<u64>,
    jvm_arguments: &Option<Vec<String>>,
    overrides: &StringMap,
) -> (result: Result<String, Error>)
    ensures
        match result {
            Ok(file) => jvm_arguments.is_some() && file@ == properties::properties_text(
                bootstrap_properties(
                    timeout_seconds,
                    jvm_arguments.unwrap().deep_view(),
                    overrides@,
                ),
            ),
            Err(error) => jvm_arguments.is_none() && error == Error::InvalidJVMConfig,
        },
{
    let arguments = match jvm_arguments {
        Some(arguments) => arguments,
        None => {
            return Err(Error::InvalidJVMConfig);
        },
    };
    let mut bootstrap: StringMap = OrderedMap::new();
    add_launch_properties(&mut bootstrap);
    proof {
        assert(bootstrap@ =~= launch_properties());
    }
    bootstrap.extend(&timeout_properties(timeout_seconds));
    add_jvm_arguments(&mut bootstrap, arguments);
    bootstrap.extend(overrides);
    Ok(format_properties(&bootstrap))
}

/// Builds the file of a role group.
pub fn build(rg: &NifiRoleGroupConfig, jvm_arguments: &Option<Vec<String>>) -> (result: Result<
    String,
    Error,
>)
    ensures
        match result {
            Ok(file) => jvm_arguments.is_some() && file@ == properties::properties_text(
                bootstrap_properties(
                    rg.deep_view().config.graceful_shutdown_timeout_seconds,
                    jvm_arguments.unwrap().deep_view(),
                    rg.deep_view().config_overrides.bootstrap_conf,
                ),
            ),
            Err(error) => jvm_arguments.is_none() && error == Error::InvalidJVMConfig,
        },
{
    build_file(
        rg.config.graceful_shutdown_timeout_seconds,
        jvm_arguments,
        &rg.config_overrides.bootstrap_conf,
    )
}

/// Settings of the user win over those of the operator, and all others stay as the operator sets
/// them.
pub proof fn law_overrides_win(
    timeout_seconds: Option<u64>,
    arguments: Seq<Seq<char>>,
    overrides: Map<Seq<char>, Seq<char>>,
    key: Seq<char>,
)
    ensures
        overrides.dom().contains(key) ==> bootstrap_properties(
            timeout_seconds,
            arguments,
            overrides,
        ).dom().contains(key) && bootstrap_properties(timeout_seconds, arguments, overrides)[key]
            == overrides[key],
        !overrides.dom().contains(key) ==> (bootstrap_properties(
            timeout_seconds,
            arguments,
            overrides,
        ).dom().contains(key) <==> bootstrap_properties(
            timeout_seconds,
            arguments,
            Map::empty(),
        ).dom().contains(key)),
        !overrides.dom().contains(key) && bootstrap_properties(
            timeout_seconds,
            arguments,
            overrides,
        ).dom().contains(key) ==> bootstrap_properties(timeout_seconds, arguments, overrides)[key]
            == bootstrap_properties(timeout_seconds, arguments, Map::empty())[key],
{
}

} // verus!
