use agent_runtime::registry::DockerConfigJson;
use agent_runtime::sonobuoy::{RunSonobuoy, SonobuoyTestBuilder, SubmitError};

fn submission() -> RunSonobuoy {
    RunSonobuoy {
        target_cluster_kubeconfig_path: None,
        target_cluster_kubeconfig: Some(String::from("${mycluster.kubeconfig}")),
        name: String::from("conformance-1"),
        image: String::from("example.test/sonobuoy-agent:1"),
        pull_secret: Some(String::from("pull-secret")),
        keep_running: true,
        sonobuoy_plugin: String::from("e2e"),
        kubernetes_conformance_image: Some(String::from("example.test/conformance:1")),
        aws_secret: Some(String::from("creds")),
        resource: vec![String::from("mycluster")],
        assume_role: None,
    }
}

#[test]
fn registry_credentials_are_encoded() {
    let c = DockerConfigJson::new("user", "pass", "registry.example.test");
    assert_eq!(c.registry, "registry.example.test");
    // base64 of "user:pass"
    assert_eq!(c.auth, "dXNlcjpwYXNz");
}

#[test]
fn empty_credentials_still_encode_the_separator() {
    let c = DockerConfigJson::new("", "", "r");
    assert_eq!(c.auth, "Og==");
}

#[test]
fn direct_kubeconfig_value_passes_through() {
    let t = submission().build_test(None).expect("valid submission");
    assert_eq!(t.name, "conformance-1");
    assert_eq!(t.namespace, "testsys");
    assert_eq!(t.spec.resources, vec![String::from("mycluster")]);
    assert!(t.spec.depends_on.is_empty());
    assert_eq!(t.spec.retries, None);
    let agent = &t.spec.agent;
    assert_eq!(agent.name, "sonobuoy-test-agent");
    assert_eq!(agent.image, "example.test/sonobuoy-agent:1");
    assert_eq!(agent.pull_secret.as_deref(), Some("pull-secret"));
    assert!(agent.keep_running);
    assert_eq!(agent.timeout, None);
    assert!(agent.capabilities.is_none());
    let config = agent.configuration.as_ref().expect("configuration set");
    assert_eq!(config.kubeconfig_base64, "${mycluster.kubeconfig}");
    assert_eq!(config.plugin, "e2e");
    assert_eq!(config.kubernetes_version, None);
    assert_eq!(
        config.kube_conformance_image.as_deref(),
        Some("example.test/conformance:1")
    );
    assert_eq!(config.assume_role, None);
    let secrets = agent.secrets.as_ref().expect("secret assigned");
    assert_eq!(secrets.key, "awsCredentials");
    assert_eq!(secrets.name, "creds");
}

#[test]
fn kubeconfig_file_contents_are_encoded() {
    let mut s = submission();
    s.target_cluster_kubeconfig = None;
    s.target_cluster_kubeconfig_path = Some(String::from("/tmp/kubeconfig"));
    let t = s
        .build_test(Some(String::from("abc")))
        .expect("valid submission");
    let config = t.spec.agent.configuration.expect("configuration set");
    assert_eq!(config.kubeconfig_base64, "YWJj");
}

#[test]
fn no_secret_means_no_assignment() {
    let mut s = submission();
    s.aws_secret = None;
    let t = s.build_test(None).expect("valid submission");
    assert!(t.spec.agent.secrets.is_none());
}

#[test]
fn both_kubeconfig_arguments_are_rejected() {
    let mut s = submission();
    s.target_cluster_kubeconfig_path = Some(String::from("/tmp/kubeconfig"));
    let r = s.build_test(Some(String::from("abc")));
    match r {
        Err(SubmitError::InvalidArguments { why }) => assert_eq!(
            why,
            "Exactly 1 of 'target-cluster-kubeconfig' and 'target-cluster-kubeconfig-path' must be provided"
        ),
        Ok(_) => panic!("expected rejection"),
    }
}

#[test]
fn neither_kubeconfig_argument_is_rejected() {
    let mut s = submission();
    s.target_cluster_kubeconfig = None;
    let r = s.build_test(None);
    assert!(matches!(r, Err(SubmitError::InvalidArguments { .. })));
}

#[test]
fn builder_assembles_a_test_record() {
    let t = SonobuoyTestBuilder::new(String::from("agent image"))
        .target_cluster_kubeconfig(String::from("${mycluster.kubeconfig}"))
        .resource(String::from("mycluster"))
        .keep_running(true)
        .build(String::from("test name"))
        .expect("kubeconfig was set");
    assert_eq!(t.name, "test name");
    assert_eq!(t.namespace, "testsys");
    assert_eq!(t.spec.agent.image, "agent image");
    assert_eq!(t.spec.resources, vec![String::from("mycluster")]);
    let config = t.spec.agent.configuration.expect("configuration set");
    assert_eq!(config.kubeconfig_base64, "${mycluster.kubeconfig}");
    assert_eq!(config.plugin, "e2e");
    assert!(t.spec.agent.keep_running);
}

#[test]
fn builder_without_kubeconfig_is_rejected() {
    let r = SonobuoyTestBuilder::new(String::from("agent image")).build(String::from("t"));
    assert!(matches!(
        r,
        Err(SubmitError::InvalidArguments { .. })
    ));
}
