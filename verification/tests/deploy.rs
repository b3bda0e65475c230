use spnl::deploy::{
    first_ready_pod, patch_env, pod_ready, pod_selector, set_label, versioned_image, EnvVar,
    ManifestError, PodCondition, UninitializedField, UpArgsBuilder,
};

const TEMPLATE: &str = "apiVersion: apps/v1
kind: Deployment
metadata:
  name: vllm
spec:
  selector:
    matchLabels:
      app.kubernetes.io/name: vllm
  template:
    metadata:
      labels:
        app.kubernetes.io/name: vllm
        app.kubernetes.io/instance: none
    spec:
      containers:
        - name: vllm
          image: ghcr.io/ibm/spnl-llm-d-cuda
          env:
            - name: MODEL
              value: default
            - name: HF_TOKEN
              value: none
";

#[test]
fn load_deployment_manifest() {
    // only the token given
    let args = UpArgsBuilder::new().hf_token("").build().unwrap();
    assert_eq!(args.name(), "vllm");
    assert_eq!(args.model(), &None);
    assert_eq!(args.local_port(), Some(8000));
    assert_eq!(args.remote_port(), 8000);
    let (d, fields) =
        spnl::manifest::load_deployment_manifest(&args, TEMPLATE, "0.1.0", "id-1").unwrap();
    assert_eq!(d.metadata.name, Some("vllm".to_string()));
    assert_eq!(fields.name, Some("vllm".to_string()));
    assert!(fields.has_container);
    assert_eq!(fields.image, Some("ghcr.io/ibm/spnl-llm-d-cuda:v0.1.0".to_string()));
    let pod = d.spec.template.spec.as_ref().unwrap();
    assert_eq!(pod.containers[0].image, Some("ghcr.io/ibm/spnl-llm-d-cuda:v0.1.0".to_string()));
    let env = pod.containers[0].env.as_ref().unwrap();
    assert_eq!(env[0].value, Some("default".to_string()));
    assert_eq!(env[1].value, Some("".to_string()));
    let labels = d.spec.template.metadata.as_ref().unwrap().labels.as_ref().unwrap();
    assert_eq!(labels.get("app.kubernetes.io/instance"), Some(&"id-1".to_string()));
}

#[test]
fn manifest_for_a_named_model() {
    let args = UpArgsBuilder::new()
        .name("srv")
        .model(Some("ibm/granite".into()))
        .hf_token("tok")
        .build()
        .unwrap();
    let (d, _) = spnl::manifest::load_deployment_manifest(&args, TEMPLATE, "2", "i").unwrap();
    assert_eq!(d.metadata.name, Some("srv".to_string()));
    let selector = d.spec.selector.match_labels.as_ref().unwrap();
    assert_eq!(selector.get("app.kubernetes.io/name"), Some(&"srv".to_string()));
    let env = d.spec.template.spec.as_ref().unwrap().containers[0].env.as_ref().unwrap();
    assert_eq!(env[0].value, Some("ibm/granite".to_string()));
    assert_eq!(env[1].value, Some("tok".to_string()));
    let no_token = TEMPLATE.replace("HF_TOKEN", "OTHER");
    assert!(matches!(
        spnl::manifest::load_deployment_manifest(&args, &no_token, "2", "i"),
        Err(spnl::manifest::LoadError::Manifest(ManifestError::MissingToken))
    ));
    assert!(matches!(
        spnl::manifest::load_deployment_manifest(&args, "not: [a deployment", "2", "i"),
        Err(spnl::manifest::LoadError::Template(_))
    ));
}

#[test]
fn builder_requires_the_token() {
    assert_eq!(
        UpArgsBuilder::new().name("x").build().err(),
        Some(UninitializedField { field: "hf_token" })
    );
    let a = UpArgsBuilder::new()
        .name("srv")
        .namespace(Some("ns".into()))
        .model(Some("m".into()))
        .hf_token("t")
        .local_port(None)
        .remote_port(9)
        .build()
        .unwrap();
    assert_eq!(a.name(), "srv");
    assert_eq!(a.namespace(), &Some("ns".to_string()));
    assert_eq!(a.local_port(), None);
    assert_eq!(a.remote_port(), 9);
}

#[test]
fn selector_and_image() {
    assert_eq!(
        pod_selector("vllm", "id-1"),
        "app.kubernetes.io/name=vllm,app.kubernetes.io/instance=id-1"
    );
    assert_eq!(versioned_image("ghcr.io/x/spnl", "0.1.0"), "ghcr.io/x/spnl:v0.1.0");
}

#[test]
fn labels_are_replaced_where_present() {
    let mut labels = vec![
        ("app.kubernetes.io/name".to_string(), "old".to_string()),
        ("tier".to_string(), "x".to_string()),
    ];
    set_label(&mut labels, "app.kubernetes.io/name", "new");
    set_label(&mut labels, "app.kubernetes.io/instance", "id");
    assert_eq!(
        labels,
        vec![
            ("app.kubernetes.io/name".to_string(), "new".to_string()),
            ("tier".to_string(), "x".to_string()),
        ]
    );
}

fn var(name: &str) -> EnvVar {
    EnvVar { name: name.into(), value: None }
}

#[test]
fn environment_patch() {
    let mut env = vec![var("MODEL"), var("HF_TOKEN"), var("OTHER")];
    assert_eq!(patch_env(&mut env, Some("m".into()), "tok".into()), Ok(()));
    assert_eq!(env[0].value, Some("m".to_string()));
    assert_eq!(env[1].value, Some("tok".to_string()));
    assert_eq!(env[2].value, None);

    let mut env = vec![var("HF_TOKEN")];
    assert_eq!(patch_env(&mut env, None, "tok".into()), Ok(()));
    let mut env = vec![var("HF_TOKEN")];
    assert_eq!(patch_env(&mut env, Some("m".into()), "tok".into()), Err(ManifestError::MissingModel));
    let mut env = vec![var("MODEL")];
    assert_eq!(patch_env(&mut env, Some("m".into()), "tok".into()), Err(ManifestError::MissingToken));
}

fn cond(t: &str, s: &str) -> PodCondition {
    PodCondition { condition_type: t.into(), status: s.into() }
}

#[test]
fn ready_pods() {
    assert!(pod_ready(&Some(vec![cond("Scheduled", "True"), cond("Ready", "True")])));
    assert!(!pod_ready(&Some(vec![cond("Ready", "False")])));
    assert!(!pod_ready(&None));
    let pods = vec![
        ("a".to_string(), Some(vec![cond("Ready", "False")])),
        ("b".to_string(), None),
        ("c".to_string(), Some(vec![cond("Ready", "True")])),
    ];
    assert_eq!(first_ready_pod(&pods), Some("c".to_string()));
    assert_eq!(first_ready_pod(&pods[..2].to_vec()), None);
}
