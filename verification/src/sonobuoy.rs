//! Building a conformance-test record for submission to the control plane.
//!
//! The operator supplies the target cluster's kubeconfig either as a file
//! path or as an already-encoded value (possibly a template such as
//! `${cluster.kubeconfig}` resolved later); exactly one of the two must be
//! given. The record carries the agent configuration the test agent will
//! run with.

use vstd::prelude::*;
use crate::registry::{base64_of, base64_encode};
use crate::status::{clone_string, clone_opt_string};

verus! {

/// Why a test submission was rejected before reaching the control plane.
#[derive(Debug)]
pub enum SubmitError {
    InvalidArguments { why: String },
}

/// A test record: identity plus declarative spec, created with an empty
/// status.
pub struct TestRecord {
    pub name: String,
    pub namespace: String,
    pub spec: TestSpec,
}

pub struct TestSpec {
    pub resources: Vec<String>,
    pub depends_on: Vec<String>,
    pub retries: Option<u32>,
    pub agent: AgentSpec,
}

/// The agent section of a test record's spec: which agent image runs the
/// test and with what configuration.
pub struct AgentSpec {
    pub name: String,
    pub image: String,
    pub pull_secret: Option<String>,
    pub keep_running: bool,
    pub timeout: Option<u64>,
    pub configuration: Option<SonobuoyConfig>,
    pub secrets: Option<SecretAssignment>,
    pub capabilities: Option<Vec<String>>,
}

/// The conformance-test agent's configuration.
pub struct SonobuoyConfig {
    pub kubeconfig_base64: String,
    pub plugin: String,
    pub kubernetes_version: Option<String>,
    pub kube_conformance_image: Option<String>,
    pub assume_role: Option<String>,
}

/// One named secret handed to the agent, keyed by what the agent looks it
/// up as.
pub struct SecretAssignment {
    pub key: String,
    pub name: String,
}

/// The namespace all test records live in.
pub fn testsys_namespace() -> (r: String)
    ensures
        r@ == "testsys"@,
{
    String::from_str("testsys")
}

/// The key under which the agent looks up its cloud credentials secret.
pub fn aws_credentials_secret_key() -> (r: String)
    ensures
        r@ == "awsCredentials"@,
{
    String::from_str("awsCredentials")
}

/// The name of the conformance-test agent.
pub fn sonobuoy_agent_name() -> (r: String)
    ensures
        r@ == "sonobuoy-test-agent"@,
{
    String::from_str("sonobuoy-test-agent")
}

pub fn invalid_kubeconfig_arguments_message() -> (r: String)
    ensures
        r@ == "Exactly 1 of 'target-cluster-kubeconfig' and 'target-cluster-kubeconfig-path' must be provided"@,
{
    String::from_str(
        "Exactly 1 of 'target-cluster-kubeconfig' and 'target-cluster-kubeconfig-path' must be provided",
    )
}

/// A conformance-test submission, as the operator states it.
pub struct RunSonobuoy {
    /// Path to the target cluster's kubeconfig file, read by the process
    /// edge.
    pub target_cluster_kubeconfig_path: Option<String>,
    /// The already-base64-encoded kubeconfig, or a template resolved later.
    pub target_cluster_kubeconfig: Option<String>,
    pub name: String,
    pub image: String,
    pub pull_secret: Option<String>,
    pub keep_running: bool,
    pub sonobuoy_plugin: String,
    pub kubernetes_conformance_image: Option<String>,
    pub aws_secret: Option<String>,
    pub resource: Vec<String>,
    pub assume_role: Option<String>,
}

/// How the kubeconfig argument resolves: a file's contents are encoded, a
/// direct value passes through unchanged, and anything but exactly one of
/// the two is rejected.
pub open spec fn kubeconfig_resolution(
    path: Option<Seq<char>>,
    direct: Option<Seq<char>>,
    contents: Seq<char>,
) -> Option<Seq<char>> {
    match (path, direct) {
        (Some(_p), None) => Some(base64_of(contents)),
        (None, Some(v)) => Some(v),
        _ => None,
    }
}

/// Copy a vector of strings; the copy reads the same.
pub fn clone_string_vec(v: &Vec<String>) -> (r: Vec<String>)
    ensures
        r.deep_view() == v.deep_view(),
{
    let mut r: Vec<String> = Vec::new();
    let n = v.len();
    for i in 0..n
        invariant
            n == v.len(),
            r.len() == i,
            forall|j: int| 0 <= j < i ==> r.deep_view()[j] == v.deep_view()[j],
    {
        r.push(clone_string(&v[i]));
    }
    proof {
        assert(r.deep_view() =~~= v.deep_view());
    }
    r
}

impl RunSonobuoy {
    /// Build the test record this submission describes. `kubeconfig_contents`
    /// is what the process edge read from the kubeconfig path, when one was
    /// given. Exactly one of the path and the direct value must be present,
    /// else the submission is rejected; the file's contents are
    /// base64-encoded, a direct value (possibly a template) passes through.
    pub fn build_test(&self, kubeconfig_contents: Option<String>) -> (r: Result<
        TestRecord,
        SubmitError,
    >)
        requires
            self.target_cluster_kubeconfig_path is Some ==> kubeconfig_contents is Some,
            kubeconfig_contents matches Some(c) ==> c@.len() < 0x1000_0000_0000_0000,
        ensures
            (r is Ok) <==> kubeconfig_resolution(
                self.target_cluster_kubeconfig_path.deep_view(),
                self.target_cluster_kubeconfig.deep_view(),
                kubeconfig_contents.deep_view() ->0,
            ) is Some,
            r matches Ok(t) ==> {
                &&& t.name@ == self.name@
                &&& t.namespace@ == "testsys"@
                &&& t.spec.resources.deep_view() == self.resource.deep_view()
                &&& t.spec.depends_on.deep_view() == Seq::<Seq<char>>::empty()
                &&& t.spec.retries is None
                &&& t.spec.agent.name@ == "sonobuoy-test-agent"@
                &&& t.spec.agent.image@ == self.image@
                &&& t.spec.agent.pull_secret.deep_view() == self.pull_secret.deep_view()
                &&& t.spec.agent.keep_running == self.keep_running
                &&& t.spec.agent.timeout is None
                &&& t.spec.agent.capabilities is None
                &&& t.spec.agent.configuration matches Some(c)
                &&& t.spec.agent.configuration->0.kubeconfig_base64@ == kubeconfig_resolution(
                    self.target_cluster_kubeconfig_path.deep_view(),
                    self.target_cluster_kubeconfig.deep_view(),
                    kubeconfig_contents.deep_view()->0,
                )->0
                &&& t.spec.agent.configuration->0.plugin@ == self.sonobuoy_plugin@
                &&& t.spec.agent.configuration->0.kubernetes_version is None
                &&& t.spec.agent.configuration->0.kube_conformance_image.deep_view()
                    == self.kubernetes_conformance_image.deep_view()
                &&& t.spec.agent.configuration->0.assume_role.deep_view()
                    == self.assume_role.deep_view()
                &&& match self.aws_secret {
                    Some(s) => t.spec.agent.secrets matches Some(a) && a.key@
                        == "awsCredentials"@ && a.name@ == s@,
                    None => t.spec.agent.secrets is None,
                }
            },
            r matches Err(e) ==> (e matches SubmitError::InvalidArguments { why } && why@
                == "Exactly 1 of 'target-cluster-kubeconfig' and 'target-cluster-kubeconfig-path' must be provided"@),
    {
        let kubeconfig_base64: String = match (
            &self.target_cluster_kubeconfig_path,
            &self.target_cluster_kubeconfig,
        ) {
            (Some(_path), None) => {
                let contents = match &kubeconfig_contents {
                    Some(c) => c,
                    None => {
                        return Err(SubmitError::InvalidArguments {
                            why: invalid_kubeconfig_arguments_message(),
                        });
                    },
                };
                base64_encode(contents.as_str())
            },
            (None, Some(value)) => clone_string(value),
            (_, _) => {
                return Err(SubmitError::InvalidArguments {
                    why: invalid_kubeconfig_arguments_message(),
                });
            },
        };
        let secrets = match &self.aws_secret {
            Some(s) => Some(
                SecretAssignment { key: aws_credentials_secret_key(), name: clone_string(s) },
            ),
            None => None,
        };
        Ok(
            TestRecord {
                name: clone_string(&self.name),
                namespace: testsys_namespace(),
                spec: TestSpec {
                    resources: clone_string_vec(&self.resource),
                    depends_on: Vec::new(),
                    retries: None,
                    agent: AgentSpec {
                        name: sonobuoy_agent_name(),
                        image: clone_string(&self.image),
                        pull_secret: clone_opt_string(&self.pull_secret),
                        keep_running: self.keep_running,
                        timeout: None,
                        configuration: Some(
                            SonobuoyConfig {
                                kubeconfig_base64,
                                plugin: clone_string(&self.sonobuoy_plugin),
                                kubernetes_version: None,
                                kube_conformance_image: clone_opt_string(
                                    &self.kubernetes_conformance_image,
                                ),
                                assume_role: clone_opt_string(&self.assume_role),
                            },
                        ),
                        secrets,
                        capabilities: None,
                    },
                },
            },
        )
    }
}

/// An explicit builder for a conformance-test submission: a setter for each
/// optional value, a template-capable kubeconfig hook, and a final
/// validating `build(name)` call. The kubeconfig here is the direct value
/// route — a template such as `${cluster.kubeconfig}` resolved later, or an
/// already-encoded value; a kubeconfig file goes through [`RunSonobuoy`]
/// and the process edge instead.
pub struct SonobuoyTestBuilder {
    pub config: RunSonobuoy,
}

impl SonobuoyTestBuilder {
    /// Start a submission for the given agent image.
    pub fn new(image: String) -> (b: SonobuoyTestBuilder)
        ensures
            b.config.image == image,
            b.config.name@ == Seq::<char>::empty(),
            b.config.target_cluster_kubeconfig_path is None,
            b.config.target_cluster_kubeconfig is None,
            b.config.pull_secret is None,
            b.config.keep_running == false,
            b.config.sonobuoy_plugin@ == "e2e"@,
            b.config.kubernetes_conformance_image is None,
            b.config.aws_secret is None,
            b.config.resource.deep_view() == Seq::<Seq<char>>::empty(),
            b.config.assume_role is None,
    {
        let b = SonobuoyTestBuilder {
            config: RunSonobuoy {
                target_cluster_kubeconfig_path: None,
                target_cluster_kubeconfig: None,
                name: String::new(),
                image,
                pull_secret: None,
                keep_running: false,
                sonobuoy_plugin: String::from_str("e2e"),
                kubernetes_conformance_image: None,
                aws_secret: None,
                resource: Vec::new(),
                assume_role: None,
            },
        };
        proof {
            assert(b.config.resource.deep_view() =~~= Seq::<Seq<char>>::empty());
        }
        b
    }

    /// The target cluster's kubeconfig: an encoded value, or a template
    /// resolved later.
    pub fn target_cluster_kubeconfig(self, value: String) -> (b: Self)
        ensures
            b.config == (RunSonobuoy { target_cluster_kubeconfig: Some(value), ..self.config }),
    {
        SonobuoyTestBuilder {
            config: RunSonobuoy { target_cluster_kubeconfig: Some(value), ..self.config },
        }
    }

    pub fn pull_secret(self, name: String) -> (b: Self)
        ensures
            b.config == (RunSonobuoy { pull_secret: Some(name), ..self.config }),
    {
        SonobuoyTestBuilder { config: RunSonobuoy { pull_secret: Some(name), ..self.config } }
    }

    pub fn keep_running(self, keep: bool) -> (b: Self)
        ensures
            b.config == (RunSonobuoy { keep_running: keep, ..self.config }),
    {
        SonobuoyTestBuilder { config: RunSonobuoy { keep_running: keep, ..self.config } }
    }

    pub fn plugin(self, plugin: String) -> (b: Self)
        ensures
            b.config == (RunSonobuoy { sonobuoy_plugin: plugin, ..self.config }),
    {
        SonobuoyTestBuilder { config: RunSonobuoy { sonobuoy_plugin: plugin, ..self.config } }
    }

    pub fn kubernetes_conformance_image(self, image: String) -> (b: Self)
        ensures
            b.config == (RunSonobuoy {
                kubernetes_conformance_image: Some(image),
                ..self.config
            }),
    {
        SonobuoyTestBuilder {
            config: RunSonobuoy { kubernetes_conformance_image: Some(image), ..self.config },
        }
    }

    pub fn aws_secret(self, name: String) -> (b: Self)
        ensures
            b.config == (RunSonobuoy { aws_secret: Some(name), ..self.config }),
    {
        SonobuoyTestBuilder { config: RunSonobuoy { aws_secret: Some(name), ..self.config } }
    }

    pub fn assume_role(self, role: String) -> (b: Self)
        ensures
            b.config == (RunSonobuoy { assume_role: Some(role), ..self.config }),
    {
        SonobuoyTestBuilder { config: RunSonobuoy { assume_role: Some(role), ..self.config } }
    }

    /// Add one resource the test depends on.
    pub fn resource(self, name: String) -> (b: Self)
        ensures
            b.config.resource@ == self.config.resource@.push(name),
            b.config == (RunSonobuoy { resource: b.config.resource, ..self.config }),
    {
        let mut config = self.config;
        config.resource.push(name);
        SonobuoyTestBuilder { config }
    }

    /// Validate and build the test record under the given name. The one
    /// thing that can be missing here is the kubeconfig value.
    pub fn build(self, name: String) -> (r: Result<TestRecord, SubmitError>)
        requires
            self.config.target_cluster_kubeconfig_path is None,
        ensures
            (r is Ok) <==> self.config.target_cluster_kubeconfig is Some,
            r matches Ok(t) ==> {
                &&& t.name@ == name@
                &&& t.namespace@ == "testsys"@
                &&& t.spec.agent.image@ == self.config.image@
                &&& t.spec.agent.configuration->0.kubeconfig_base64@
                    == self.config.target_cluster_kubeconfig->0@
                &&& t.spec.agent.configuration->0.plugin@ == self.config.sonobuoy_plugin@
                &&& t.spec.agent.keep_running == self.config.keep_running
                &&& t.spec.agent.pull_secret.deep_view() == self.config.pull_secret.deep_view()
                &&& t.spec.resources.deep_view() == self.config.resource.deep_view()
            },
    {
        let mut config = self.config;
        config.name = name;
        config.build_test(None)
    }
}

} // verus!
