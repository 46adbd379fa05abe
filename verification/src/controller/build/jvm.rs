//! The arguments of the JVM.

use crate::controller::build::NIFI_CONFIG_DIRECTORY;
use crate::list::{add_item, add_text, empty_list};
use crate::text::concat2;
use vstd::prelude::*;

verus! {

pub const JVM_SECURITY_PROPERTIES_FILE: &'static str = "security.properties";

/// Why the arguments of the JVM cannot be determined.
#[derive(Debug, PartialEq, Eq)]
pub enum Error {
    /// The memory limit is missing.
    MissingMemoryResourceConfig,
    /// The memory limit cannot be read.
    InvalidMemoryConfig,
}

/// The arguments that the operator gives the JVM, for a heap of the given size.
pub open spec fn operator_arguments(java_heap: Seq<char>) -> Seq<Seq<char>> {
    seq![
        "-Xmx"@ + java_heap,
        "-Xms"@ + java_heap,
        "-XX:+UseG1GC"@,
        "-Djava.awt.headless=true"@,
        "-Dorg.apache.jasper.compiler.disablejsr199=true"@,
        "-Djava.net.preferIPv4Stack=true"@,
        "-Dsun.net.http.allowRestrictedHeaders=true"@,
        "-Djava.protocol.handler.pkgs=sun.net.www.protocol"@,
        "-Djava.security.egd=file:/dev/urandom"@,
        "-Djavax.security.auth.useSubjectCredsOnly=true"@,
        "-Dzookeeper.admin.enableServer=false"@,
        "-Djava.security.properties="@ + NIFI_CONFIG_DIRECTORY@ + "/"@
            + JVM_SECURITY_PROPERTIES_FILE@,
    ]
}

/// The arguments that the operator gives the JVM, to be merged with those of the user.
///
/// `java_heap` is the size of the heap for the memory limit; it is missing where the limit cannot
/// be read.
pub fn build_merged_jvm_config(
    memory_limit: &Option<String>,
    java_heap: &Option<String>,
) -> (result: Result<Vec<String>, Error>)
    ensures
        match result {
            Ok(arguments) => memory_limit.is_some() && java_heap.is_some()
                && arguments.deep_view() == operator_arguments(java_heap.unwrap()@),
            Err(Error::MissingMemoryResourceConfig) => memory_limit.is_none(),
            Err(Error::InvalidMemoryConfig) => memory_limit.is_some() && java_heap.is_none(),
        },
{
    if memory_limit.is_none() {
        return Err(Error::MissingMemoryResourceConfig);
    }
    let java_heap = match java_heap {
        Some(java_heap) => java_heap,
        None => {
            return Err(Error::InvalidMemoryConfig);
        },
    };
    let mut arguments: Vec<String> = empty_list();
    add_item(&mut arguments, concat2("-Xmx", java_heap.as_str()));
    add_item(&mut arguments, concat2("-Xms", java_heap.as_str()));
    add_text(&mut arguments, "-XX:+UseG1GC");
    add_text(&mut arguments, "-Djava.awt.headless=true");
    // JSPs are used without a JDK.
    add_text(&mut arguments, "-Dorg.apache.jasper.compiler.disablejsr199=true");
    add_text(&mut arguments, "-Djava.net.preferIPv4Stack=true");
    // The nodes of a cluster need restricted headers to talk to each other.
    add_text(&mut arguments, "-Dsun.net.http.allowRestrictedHeaders=true");
    add_text(&mut arguments, "-Djava.protocol.handler.pkgs=sun.net.www.protocol");
    add_text(&mut arguments, "-Djava.security.egd=file:/dev/urandom");
    add_text(&mut arguments, "-Djavax.security.auth.useSubjectCredsOnly=true");
    // The admin server of ZooKeeper would take the port of NiFi.
    add_text(&mut arguments, "-Dzookeeper.admin.enableServer=false");
    add_item(
        &mut arguments,
        "-Djava.security.properties=".to_owned().concat(NIFI_CONFIG_DIRECTORY).concat("/").concat(
            JVM_SECURITY_PROPERTIES_FILE,
        ),
    );
    Ok(arguments)
}

} // verus!
