//! The time that pods have to shut down.

use crate::controller::ValidatedNifiConfig;
use crate::kubernetes::{PodTemplate, PodTemplateView};
use crate::ordered_map::{OrderedMap, StringMap};
use crate::text;
use crate::text::number_text;
use vstd::prelude::*;

verus! {

/// Why the time to shut down cannot be set.
#[derive(Debug, PartialEq, Eq)]
pub enum Error {
    /// The time is longer than a pod can be given.
    SetTerminationGracePeriod,
}

/// What `bootstrap.conf` says of the time to shut down.
pub open spec fn shutdown_properties(timeout_seconds: Option<u64>) -> Map<Seq<char>, Seq<char>> {
    match timeout_seconds {
        Some(seconds) => Map::empty().insert(
            "graceful.shutdown.seconds"@,
            text::decimal(seconds as nat),
        ),
        None => Map::empty(),
    }
}

/// What `bootstrap.conf` says of a time to shut down.
pub fn timeout_properties(timeout_seconds: Option<u64>) -> (properties: StringMap)
    ensures
        properties@ == shutdown_properties(timeout_seconds),
{
    let mut properties: StringMap = OrderedMap::new();
    if let Some(seconds) = timeout_seconds {
        properties.put("graceful.shutdown.seconds", number_text(seconds).as_str());
    }
    properties
}

/// What `bootstrap.conf` says of the time to shut down.
pub fn graceful_shutdown_config_properties(config: &ValidatedNifiConfig) -> (properties: StringMap)
    ensures
        properties@ == shutdown_properties(config.graceful_shutdown_timeout_seconds),
{
    timeout_properties(config.graceful_shutdown_timeout_seconds)
}

/// Gives the pods their time to shut down, where one is set.
pub fn add_graceful_shutdown_config(
    merged_config: &ValidatedNifiConfig,
    pod: &mut PodTemplate,
) -> (result: Result<(), Error>)
    ensures
        match merged_config.graceful_shutdown_timeout_seconds {
            Some(seconds) => if seconds <= i64::MAX {
                &&& result == Ok::<(), Error>(())
                &&& final(pod).deep_view() == (PodTemplateView {
                    termination_grace_period_seconds: Some(seconds as i64),
                    ..old(pod).deep_view()
                })
            } else {
                &&& result == Err::<(), Error>(Error::SetTerminationGracePeriod)
                &&& final(pod).deep_view() == old(pod).deep_view()
            },
            None => {
                &&& result == Ok::<(), Error>(())
                &&& final(pod).deep_view() == old(pod).deep_view()
            },
        },
{
    if let Some(seconds) = merged_config.graceful_shutdown_timeout_seconds {
        if seconds > i64::MAX as u64 {
            return Err(Error::SetTerminationGracePeriod);
        }
        pod.termination_grace_period_seconds = Some(seconds as i64);
    }
    Ok(())
}

} // verus!
