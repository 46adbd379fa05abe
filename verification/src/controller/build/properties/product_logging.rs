//! The log configuration of the NiFi container and of the Vector agent.

use crate::contents::Copied;
use crate::crd::{
    Container, ContainerLogConfigChoice, ContainerLogConfigChoiceView, Logging, LoggingView,
    RoleGroupRef, RoleGroupRefView, MAX_NIFI_LOG_FILES_SIZE_MIB, STACKABLE_LOG_DIR,
};
use crate::text::concat3;
use vstd::prelude::*;

verus! {

/// The log file of NiFi.
pub const NIFI_LOG_FILE: &'static str = "nifi.log4j.xml";

/// How NiFi writes to the console.
pub const CONSOLE_CONVERSION_PATTERN: &'static str = "%date %level [%thread] %logger{40} %msg%n";

/// Appenders that keep lines which NiFi has already formatted from being formatted again.
pub const ADDITIONAL_LOGBACK_CONFIG: &'static str = r#"  <appender name="PASSTHROUGH" class="ch.qos.logback.core.ConsoleAppender">
    <encoder>
      <pattern>%msg%n</pattern>
    </encoder>
  </appender>

  <logger name="org.apache.nifi.StdOut" level="INFO" additivity="false">
    <appender-ref ref="PASSTHROUGH" />
  </logger>

  <logger name="org.apache.nifi.StdErr" level="INFO" additivity="false">
    <appender-ref ref="PASSTHROUGH" />
  </logger>
"#;

/// The configuration of the Vector agent. The values of a role group, from its names to the level
/// of the agent's own logs, are environment variables of its container, which Vector puts in when
/// it starts.
pub const VECTOR_CONFIG: &'static str = r#"---
data_dir: ${DATA_DIR}

log_schema:
  host_key: pod

sources:
  vector:
    type: internal_logs

  files_log4j:
    type: file
    include:
      - ${LOG_DIR}/*/*.log4j.xml
    line_delimiter: "\r\n"
    multiline:
      mode: halt_before
      start_pattern: ^<log4j:event
      condition_pattern: ^<log4j:event
      timeout_ms: 1000

transforms:
  filtered_logs_vector:
    inputs:
      - vector
    type: filter
    condition: |
      ranks = {"trace": 0, "debug": 1, "info": 2, "warn": 3, "error": 4, "off": 5}
      rank = int!(get!(ranks, [downcase(string!(.metadata.level))]))
      rank >= int!(get!(ranks, [downcase("${VECTOR_FILE_LOG_LEVEL}")]))

  extended_logs:
    inputs:
      - files_log4j
      - filtered_logs_vector
    type: remap
    source: |
      .namespace = "${NAMESPACE}"
      .cluster = "${CLUSTER_NAME}"
      .role = "${ROLE_NAME}"
      .roleGroup = "${ROLE_GROUP_NAME}"

sinks:
  aggregator:
    inputs:
      - extended_logs
    type: vector
    address: ${VECTOR_AGGREGATOR_ADDRESS}
"#;

/// The configuration of the Vector agent.
pub fn vector_config_file_content() -> (content: String)
    ensures
        content@ == VECTOR_CONFIG@,
{
    VECTOR_CONFIG.to_owned()
}

/// What `logback.xml` is made from.
#[derive(Debug, PartialEq, Eq)]
pub struct LogbackConfigRequest {
    pub log_dir: String,
    pub log_file: String,
    pub max_size_in_mib: u32,
    pub console_conversion_pattern: String,
    /// Log levels and appenders, as written in a manifest.
    pub config: String,
    pub additional_config: Option<String>,
}

/// The contents of a [`LogbackConfigRequest`].
#[verifier::ext_equal]
pub struct LogbackConfigRequestView {
    pub log_dir: Seq<char>,
    pub log_file: Seq<char>,
    pub max_size_in_mib: u32,
    pub console_conversion_pattern: Seq<char>,
    pub config: Seq<char>,
    pub additional_config: Option<Seq<char>>,
}

impl DeepView for LogbackConfigRequest {
    type V = LogbackConfigRequestView;

    open spec fn deep_view(&self) -> LogbackConfigRequestView {
        LogbackConfigRequestView {
            log_dir: self.log_dir.deep_view(),
            log_file: self.log_file.deep_view(),
            max_size_in_mib: self.max_size_in_mib.deep_view(),
            console_conversion_pattern: self.console_conversion_pattern.deep_view(),
            config: self.config.deep_view(),
            additional_config: self.additional_config.deep_view(),
        }
    }
}

/// What the configuration of the Vector agent of a role group is made from.
#[derive(Debug, PartialEq, Eq)]
pub struct VectorConfigRequest {
    pub role_group: RoleGroupRef,
    /// Log levels and appenders, as written in a manifest.
    pub log_config: Option<String>,
}

/// The contents of a [`VectorConfigRequest`].
#[verifier::ext_equal]
pub struct VectorConfigRequestView {
    pub role_group: RoleGroupRefView,
    pub log_config: Option<Seq<char>>,
}

impl DeepView for VectorConfigRequest {
    type V = VectorConfigRequestView;

    open spec fn deep_view(&self) -> VectorConfigRequestView {
        VectorConfigRequestView {
            role_group: self.role_group.deep_view(),
            log_config: self.log_config.deep_view(),
        }
    }
}

impl LoggingView {
    /// The automatic log configuration of a container, where it has one.
    pub open spec fn automatic_config(self, container: Container) -> Option<Seq<char>> {
        if self.containers.dom().contains(container.text()) {
            match self.containers[container.text()].choice {
                Some(ContainerLogConfigChoiceView::Automatic { config }) => Some(config),
                _ => None,
            }
        } else {
            None
        }
    }

    /// The ConfigMap with the log configuration of a container, where the user provides one.
    pub open spec fn custom_config_map(self, container: Container) -> Option<Seq<char>> {
        if self.containers.dom().contains(container.text()) {
            match self.containers[container.text()].choice {
                Some(ContainerLogConfigChoiceView::Custom { config_map }) => Some(config_map),
                _ => None,
            }
        } else {
            None
        }
    }
}

impl Logging {
    /// The automatic log configuration of a container, where it has one.
    pub fn automatic(&self, container: &Container) -> (config: Option<String>)
        ensures
            config.deep_view() == self.deep_view().automatic_config(*container),
    {
        match self.containers.get(container.as_str()) {
            Some(log_config) => match &log_config.choice {
                Some(ContainerLogConfigChoice::Automatic { config }) => Some(config.copied()),
                _ => None,
            },
            None => None,
        }
    }

    /// The ConfigMap with the log configuration of a container, where the user provides one.
    pub fn custom(&self, container: &Container) -> (config_map: Option<String>)
        ensures
            config_map.deep_view() == self.deep_view().custom_config_map(*container),
    {
        match self.containers.get(container.as_str()) {
            Some(log_config) => match &log_config.choice {
                Some(ContainerLogConfigChoice::Custom { config_map }) => Some(config_map.copied()),
                _ => None,
            },
            None => None,
        }
    }
}

/// What `logback.xml` is made from, for log levels and appenders.
pub open spec fn logback_config(config: Seq<char>) -> LogbackConfigRequestView {
    LogbackConfigRequestView {
        log_dir: STACKABLE_LOG_DIR@ + "/"@ + Container::Nifi.text(),
        log_file: NIFI_LOG_FILE@,
        max_size_in_mib: MAX_NIFI_LOG_FILES_SIZE_MIB,
        console_conversion_pattern: CONSOLE_CONVERSION_PATTERN@,
        config,
        additional_config: Some(ADDITIONAL_LOGBACK_CONFIG@),
    }
}

/// What the `logback.xml` of the NiFi container is made from.
///
/// There is none where the container uses a ConfigMap of the user instead.
pub fn build_logback_config(logging: &Logging) -> (request: Option<LogbackConfigRequest>)
    ensures
        request.deep_view() == (match logging.deep_view().automatic_config(Container::Nifi) {
            Some(config) => Some(logback_config(config)),
            None => None,
        }),
{
    match logging.automatic(&Container::Nifi) {
        Some(config) => Some(
            LogbackConfigRequest {
                log_dir: concat3(STACKABLE_LOG_DIR, "/", Container::Nifi.as_str()),
                log_file: NIFI_LOG_FILE.to_owned(),
                max_size_in_mib: MAX_NIFI_LOG_FILES_SIZE_MIB,
                console_conversion_pattern: CONSOLE_CONVERSION_PATTERN.to_owned(),
                config,
                additional_config: Some(ADDITIONAL_LOGBACK_CONFIG.to_owned()),
            },
        ),
        None => None,
    }
}

/// What the configuration of the Vector agent of a role group is made from.
///
/// There is none where the agent is disabled for the role group.
pub fn build_vector_config(role_group: &RoleGroupRef, logging: &Logging) -> (request: Option<
    VectorConfigRequest,
>)
    ensures
        request.deep_view() == (if logging.enable_vector_agent {
            Some(
                VectorConfigRequestView {
                    role_group: role_group.deep_view(),
                    log_config: logging.deep_view().automatic_config(Container::Vector),
                },
            )
        } else {
            None
        }),
{
    if !logging.enable_vector_agent {
        return None;
    }
    Some(
        VectorConfigRequest {
            role_group: role_group.copied(),
            log_config: logging.automatic(&Container::Vector),
        },
    )
}

/// NiFi writes its logs where the log agent looks for them, in files of the kind that it reads, and
/// in no more than ten mebibytes. The log levels are those of the user.
pub proof fn law_logs_are_written_where_they_are_read(config: Seq<char>)
    ensures
        logback_config(config).log_dir == "/stackable/log/nifi"@,
        logback_config(config).log_file == "nifi.log4j.xml"@,
        logback_config(config).max_size_in_mib == 10,
        logback_config(config).config == config,
        logback_config(config).console_conversion_pattern
            == "%date %level [%thread] %logger{40} %msg%n"@,
        logback_config(config).additional_config.is_some(),
{
    reveal_strlit("/stackable/log");
    reveal_strlit("/");
    reveal_strlit("nifi");
    reveal_strlit("/stackable/log/nifi");
    assert("/stackable/log"@ + "/"@ + "nifi"@ =~= "/stackable/log/nifi"@);
}

/// The log configuration of a container is either the automatic one or the one of the user, never
/// both; and where the user says nothing of a container, it is neither.
pub proof fn law_log_configuration_has_one_source(logging: LoggingView, container: Container)
    ensures
        ({
            let chosen = logging.containers.dom().contains(container.text())
                && logging.containers[container.text()].choice.is_some();
            let choice = logging.containers[container.text()].choice.unwrap();
            &&& logging.automatic_config(container).is_some() <==> chosen && choice is Automatic
            &&& logging.custom_config_map(container).is_some() <==> chosen && choice is Custom
            &&& chosen && choice is Automatic ==> logging.automatic_config(container) == Some(
                choice->config,
            )
            &&& chosen && choice is Custom ==> logging.custom_config_map(container) == Some(
                choice->config_map,
            )
        }),
{
}

} // verus!
