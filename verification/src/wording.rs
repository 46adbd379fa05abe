//! How values are written: a text stands for one value, and for no other.

use crate::controller::build::properties::ConfigFileName;
use crate::controller::reconcile;
use crate::crd::sensitive_properties::NifiSensitiveKeyAlgorithm;
use crate::crd::storage::NifiRepository;
use crate::crd::{Container, StoreType};
use crate::pod_cluster::monitoring::ReportingTaskState;
use crate::zookeeper_cluster;
use crate::zookeeper_cluster::CurrentlySupportedListenerClasses;
use vstd::prelude::*;

verus! {

/// The algorithm of the sensitive properties is written by its own name.
pub proof fn law_algorithms_are_named(value: NifiSensitiveKeyAlgorithm)
    ensures
        value.text() == "NIFI_PBKDF2_AES_GCM_256"@ <==> value is NifiPbkdf2AesGcm256,
        value.text() == "NIFI_ARGON2_AES_GCM_256"@ <==> value is NifiArgon2AesGcm256,
{
    reveal_strlit("NIFI_PBKDF2_AES_GCM_256");
    reveal_strlit("NIFI_ARGON2_AES_GCM_256");
    assert("NIFI_PBKDF2_AES_GCM_256"@.len() == 23);
    assert("NIFI_ARGON2_AES_GCM_256"@.len() == 23);
    assert("NIFI_PBKDF2_AES_GCM_256"@[5] == 'P');
    assert("NIFI_ARGON2_AES_GCM_256"@[5] == 'A');
}

/// The algorithms of a cluster that ZooKeeper manages are written by their own names.
pub proof fn law_older_algorithms_are_named(value: zookeeper_cluster::NifiSensitiveKeyAlgorithm)
    ensures
        value.text() == "NIFI_ARGON2_AES_GCM_128"@ <==> value is NifiArgon2AesGcm128,
        value.text() == "NIFI_ARGON2_AES_GCM_256"@ <==> value is NifiArgon2AesGcm256,
        value.text() == "NIFI_BCRYPT_AES_GCM_128"@ <==> value is NifiBcryptAesGcm128,
        value.text() == "NIFI_BCRYPT_AES_GCM_256"@ <==> value is NifiBcryptAesGcm256,
        value.text() == "NIFI_PBKDF2_AES_GCM_128"@ <==> value is NifiPbkdf2AesGcm128,
        value.text() == "NIFI_PBKDF2_AES_GCM_256"@ <==> value is NifiPbkdf2AesGcm256,
        value.text() == "NIFI_SCRYPT_AES_GCM_128"@ <==> value is NifiScryptAesGcm128,
        value.text() == "NIFI_SCRYPT_AES_GCM_256"@ <==> value is NifiScryptAesGcm256,
{
    reveal_strlit("NIFI_ARGON2_AES_GCM_128");
    reveal_strlit("NIFI_ARGON2_AES_GCM_256");
    reveal_strlit("NIFI_BCRYPT_AES_GCM_128");
    reveal_strlit("NIFI_BCRYPT_AES_GCM_256");
    reveal_strlit("NIFI_PBKDF2_AES_GCM_128");
    reveal_strlit("NIFI_PBKDF2_AES_GCM_256");
    reveal_strlit("NIFI_SCRYPT_AES_GCM_128");
    reveal_strlit("NIFI_SCRYPT_AES_GCM_256");
    assert("NIFI_ARGON2_AES_GCM_128"@.len() == 23);
    assert("NIFI_ARGON2_AES_GCM_256"@.len() == 23);
    assert("NIFI_BCRYPT_AES_GCM_128"@.len() == 23);
    assert("NIFI_BCRYPT_AES_GCM_256"@.len() == 23);
    assert("NIFI_PBKDF2_AES_GCM_128"@.len() == 23);
    assert("NIFI_PBKDF2_AES_GCM_256"@.len() == 23);
    assert("NIFI_SCRYPT_AES_GCM_128"@.len() == 23);
    assert("NIFI_SCRYPT_AES_GCM_256"@.len() == 23);
    assert("NIFI_ARGON2_AES_GCM_128"@[20] == '1');
    assert("NIFI_ARGON2_AES_GCM_256"@[20] == '2');
    assert("NIFI_ARGON2_AES_GCM_128"@[5] == 'A');
    assert("NIFI_BCRYPT_AES_GCM_128"@[5] == 'B');
    assert("NIFI_BCRYPT_AES_GCM_256"@[5] == 'B');
    assert("NIFI_PBKDF2_AES_GCM_128"@[5] == 'P');
    assert("NIFI_PBKDF2_AES_GCM_256"@[5] == 'P');
    assert("NIFI_SCRYPT_AES_GCM_128"@[5] == 'S');
    assert("NIFI_SCRYPT_AES_GCM_256"@[5] == 'S');
    assert("NIFI_ARGON2_AES_GCM_256"@[5] == 'A');
    assert("NIFI_BCRYPT_AES_GCM_128"@[20] == '1');
    assert("NIFI_BCRYPT_AES_GCM_256"@[20] == '2');
    assert("NIFI_PBKDF2_AES_GCM_128"@[20] == '1');
    assert("NIFI_PBKDF2_AES_GCM_256"@[20] == '2');
    assert("NIFI_SCRYPT_AES_GCM_128"@[20] == '1');
    assert("NIFI_SCRYPT_AES_GCM_256"@[20] == '2');
}

/// The kinds of key and trust stores are written by their own names.
pub proof fn law_stores_are_named(value: StoreType)
    ensures
        value.text() == "JKS"@ <==> value is Jks,
        value.text() == "PKCS12"@ <==> value is Pkcs12,
{
    reveal_strlit("JKS");
    reveal_strlit("PKCS12");
    assert("JKS"@.len() == 3);
    assert("PKCS12"@.len() == 6);
}

/// The containers of a pod have names of their own.
pub proof fn law_containers_are_named(value: Container)
    ensures
        value.text() == "prepare"@ <==> value is Prepare,
        value.text() == "vector"@ <==> value is Vector,
        value.text() == "nifi"@ <==> value is Nifi,
        value.text() == "git-sync"@ <==> value is GitSync,
{
    reveal_strlit("prepare");
    reveal_strlit("vector");
    reveal_strlit("nifi");
    reveal_strlit("git-sync");
    assert("prepare"@.len() == 7);
    assert("vector"@.len() == 6);
    assert("nifi"@.len() == 4);
    assert("git-sync"@.len() == 8);
}

/// The states of a reporting task are written by their own names.
pub proof fn law_states_are_named(value: ReportingTaskState)
    ensures
        value.text() == "RUNNING"@ <==> value is Running,
        value.text() == "STOPPED"@ <==> value is Stopped,
{
    reveal_strlit("RUNNING");
    reveal_strlit("STOPPED");
    assert("RUNNING"@.len() == 7);
    assert("STOPPED"@.len() == 7);
    assert("RUNNING"@[0] == 'R');
    assert("STOPPED"@[0] == 'S');
}

/// The errors of a reconciliation are written by their own names.
pub proof fn law_errors_are_named(value: reconcile::Error)
    ensures
        value.text() == "InvalidNifiCluster"@ <==> value is InvalidNifiCluster,
        value.text() == "Dereference"@ <==> value is Dereference,
        value.text() == "ValidateCluster"@ <==> value is ValidateCluster,
        value.text() == "BuildResources"@ <==> value is BuildResources,
        value.text() == "ApplyResources"@ <==> value is ApplyResources,
        value.text() == "UpdateStatus"@ <==> value is UpdateStatus,
{
    reveal_strlit("InvalidNifiCluster");
    reveal_strlit("Dereference");
    reveal_strlit("ValidateCluster");
    reveal_strlit("BuildResources");
    reveal_strlit("ApplyResources");
    reveal_strlit("UpdateStatus");
    assert("InvalidNifiCluster"@.len() == 18);
    assert("Dereference"@.len() == 11);
    assert("ValidateCluster"@.len() == 15);
    assert("BuildResources"@.len() == 14);
    assert("ApplyResources"@.len() == 14);
    assert("UpdateStatus"@.len() == 12);
    assert("BuildResources"@[0] == 'B');
    assert("ApplyResources"@[0] == 'A');
}

/// The files of a role group have names of their own.
pub proof fn law_files_are_named(value: ConfigFileName)
    ensures
        value.text() == "bootstrap.conf"@ <==> value is BootstrapConf,
        value.text() == "nifi.properties"@ <==> value is NifiProperties,
        value.text() == "state-management.xml"@ <==> value is StateManagementXml,
        value.text() == "security.properties"@ <==> value is SecurityProperties,
        value.text() == "login-identity-providers.xml"@ <==> value is LoginIdentityProviders,
        value.text() == "authorizers.xml"@ <==> value is Authorizers,
        value.text() == "logback.xml"@ <==> value is Logback,
{
    reveal_strlit("bootstrap.conf");
    reveal_strlit("nifi.properties");
    reveal_strlit("state-management.xml");
    reveal_strlit("security.properties");
    reveal_strlit("login-identity-providers.xml");
    reveal_strlit("authorizers.xml");
    reveal_strlit("logback.xml");
    assert("bootstrap.conf"@.len() == 14);
    assert("nifi.properties"@.len() == 15);
    assert("state-management.xml"@.len() == 20);
    assert("security.properties"@.len() == 19);
    assert("login-identity-providers.xml"@.len() == 28);
    assert("authorizers.xml"@.len() == 15);
    assert("logback.xml"@.len() == 11);
    assert("nifi.properties"@[0] == 'n');
    assert("authorizers.xml"@[0] == 'a');
}

/// The repositories of a node have names of their own.
pub proof fn law_repositories_are_named(value: NifiRepository)
    ensures
        value.text() == "filebased"@ <==> value is Filebased,
        value.text() == "flowfile"@ <==> value is Flowfile,
        value.text() == "database"@ <==> value is Database,
        value.text() == "content"@ <==> value is Content,
        value.text() == "provenance"@ <==> value is Provenance,
        value.text() == "state"@ <==> value is State,
{
    reveal_strlit("filebased");
    reveal_strlit("flowfile");
    reveal_strlit("database");
    reveal_strlit("content");
    reveal_strlit("provenance");
    reveal_strlit("state");
    assert("filebased"@.len() == 9);
    assert("flowfile"@.len() == 8);
    assert("database"@.len() == 8);
    assert("content"@.len() == 7);
    assert("provenance"@.len() == 10);
    assert("state"@.len() == 5);
    assert("flowfile"@[0] == 'f');
    assert("database"@[0] == 'd');
}

/// Listeners for use inside the cluster have a Service without an address outside, unstable ones
/// one at a port of the nodes, and stable ones one with an address of its own.
pub proof fn law_listener_classes_have_their_service(value: CurrentlySupportedListenerClasses)
    ensures
        value.service_type() == "ClusterIP"@ <==> value is ClusterInternal,
        value.service_type() == "NodePort"@ <==> value is ExternalUnstable,
        value.service_type() == "LoadBalancer"@ <==> value is ExternalStable,
{
    reveal_strlit("ClusterIP");
    reveal_strlit("NodePort");
    reveal_strlit("LoadBalancer");
    assert("ClusterIP"@.len() == 9);
    assert("NodePort"@.len() == 8);
    assert("LoadBalancer"@.len() == 12);
}

} // verus!
