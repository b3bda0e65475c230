//! Bringing up a vLLM server on Kubernetes: the arguments, the changes
//! made to the deployment template, the label selector of its pods, and
//! which pod is ready to take forwarded connections.

use vstd::prelude::*;

use crate::text::{owned, push_text, same_text, views};

verus! {

broadcast use vstd::std_specs::vec::group_vec_axioms;

/// The arguments of bringing a server up.
pub struct UpArgs {
    /// Name of resource
    name: String,
    /// Namespace of resource
    namespace: Option<String>,
    /// Model to serve
    model: Option<String>,
    /// HuggingFace api token
    hf_token: String,
    /// Local port for port forwarding
    local_port: Option<u16>,
    /// Remote port for port forwarding
    remote_port: u16,
}

impl UpArgs {
    pub closed spec fn spec_name(&self) -> Seq<char> {
        self.name@
    }

    pub closed spec fn spec_namespace(&self) -> Option<String> {
        self.namespace
    }

    pub closed spec fn spec_model(&self) -> Option<String> {
        self.model
    }

    pub closed spec fn spec_hf_token(&self) -> Seq<char> {
        self.hf_token@
    }

    /// The HuggingFace token.
    pub closed spec fn spec_hf_token_string(&self) -> String {
        self.hf_token
    }

    pub closed spec fn spec_local_port(&self) -> Option<u16> {
        self.local_port
    }

    pub closed spec fn spec_remote_port(&self) -> u16 {
        self.remote_port
    }

    /// Name of resource
    pub fn name(&self) -> (r: &String)
        ensures
            r@ == self.spec_name(),
    {
        &self.name
    }

    /// Namespace of resource
    pub fn namespace(&self) -> (r: &Option<String>)
        ensures
            *r == self.spec_namespace(),
    {
        &self.namespace
    }

    /// Model to serve
    pub fn model(&self) -> (r: &Option<String>)
        ensures
            *r == self.spec_model(),
    {
        &self.model
    }

    /// HuggingFace api token
    pub fn hf_token(&self) -> (r: &String)
        ensures
            r@ == self.spec_hf_token(),
            *r == self.spec_hf_token_string(),
    {
        &self.hf_token
    }

    /// Local port for port forwarding
    pub fn local_port(&self) -> (r: Option<u16>)
        ensures
            r == self.spec_local_port(),
    {
        self.local_port
    }

    /// Remote port for port forwarding
    pub fn remote_port(&self) -> (r: u16)
        ensures
            r == self.spec_remote_port(),
    {
        self.remote_port
    }
}

/// A field that the arguments need was not given.
#[derive(Debug, Clone, Copy, PartialEq, Eq)]
pub struct UninitializedField {
    pub field: &'static str,
}

/// Builds [`UpArgs`]: the token must be given; the name defaults to
/// "vllm", the namespace and model to none, the local port to 8000 and
/// the remote port to 8000.
pub struct UpArgsBuilder {
    pub name: Option<String>,
    pub namespace: Option<Option<String>>,
    pub model: Option<Option<String>>,
    pub hf_token: Option<String>,
    pub local_port: Option<Option<u16>>,
    pub remote_port: Option<u16>,
}

impl UpArgsBuilder {
    /// Nothing given yet.
    pub fn new() -> (r: UpArgsBuilder)
        ensures
            r.name is None && r.namespace is None && r.model is None && r.hf_token is None
                && r.local_port is None && r.remote_port is None,
    {
        UpArgsBuilder {
            name: None,
            namespace: None,
            model: None,
            hf_token: None,
            local_port: None,
            remote_port: None,
        }
    }

    /// Set the name.
    pub fn name(self, name: &str) -> (r: UpArgsBuilder)
        ensures
            r.name is Some && r.name->0@ == name@,
            r.namespace == self.namespace && r.model == self.model && r.hf_token == self.hf_token
                && r.local_port == self.local_port && r.remote_port == self.remote_port,
    {
        UpArgsBuilder { name: Some(owned(name)), ..self }
    }

    /// Set the namespace.
    pub fn namespace(self, namespace: Option<String>) -> (r: UpArgsBuilder)
        ensures
            r.namespace == Some(namespace),
            r.name == self.name && r.model == self.model && r.hf_token == self.hf_token
                && r.local_port == self.local_port && r.remote_port == self.remote_port,
    {
        UpArgsBuilder { namespace: Some(namespace), ..self }
    }

    /// Set the model.
    pub fn model(self, model: Option<String>) -> (r: UpArgsBuilder)
        ensures
            r.model == Some(model),
            r.name == self.name && r.namespace == self.namespace && r.hf_token == self.hf_token
                && r.local_port == self.local_port && r.remote_port == self.remote_port,
    {
        UpArgsBuilder { model: Some(model), ..self }
    }

    /// Set the HuggingFace token.
    pub fn hf_token(self, token: &str) -> (r: UpArgsBuilder)
        ensures
            r.hf_token is Some && r.hf_token->0@ == token@,
            r.name == self.name && r.namespace == self.namespace && r.model == self.model
                && r.local_port == self.local_port && r.remote_port == self.remote_port,
    {
        UpArgsBuilder { hf_token: Some(owned(token)), ..self }
    }

    /// Set the local port.
    pub fn local_port(self, port: Option<u16>) -> (r: UpArgsBuilder)
        ensures
            r.local_port == Some(port),
            r.name == self.name && r.namespace == self.namespace && r.model == self.model
                && r.hf_token == self.hf_token && r.remote_port == self.remote_port,
    {
        UpArgsBuilder { local_port: Some(port), ..self }
    }

    /// Set the remote port.
    pub fn remote_port(self, port: u16) -> (r: UpArgsBuilder)
        ensures
            r.remote_port == Some(port),
            r.name == self.name && r.namespace == self.namespace && r.model == self.model
                && r.hf_token == self.hf_token && r.local_port == self.local_port,
    {
        UpArgsBuilder { remote_port: Some(port), ..self }
    }

    /// The arguments, with the defaults for what was not given; fails
    /// when the token was not given.
    pub fn build(self) -> (r: Result<UpArgs, UninitializedField>)
        ensures
            match r {
                Ok(a) => {
                    &&& self.hf_token is Some && a.spec_hf_token() == self.hf_token->0@
                    &&& a.spec_name() == match self.name {
                        Some(n) => n@,
                        None => "vllm"@,
                    }
                    &&& a.spec_namespace() == match self.namespace {
                        Some(n) => n,
                        None => None,
                    }
                    &&& a.spec_model() == match self.model {
                        Some(m) => m,
                        None => None,
                    }
                    &&& a.spec_local_port() == match self.local_port {
                        Some(p) => p,
                        None => Some(8000u16),
                    }
                    &&& a.spec_remote_port() == match self.remote_port {
                        Some(p) => p,
                        None => 8000u16,
                    }
                },
                Err(e) => self.hf_token is None && e.field@ == "hf_token"@,
            },
    {
        let hf_token = match self.hf_token {
            Some(t) => t,
            None => {
                return Err(UninitializedField { field: "hf_token" });
            },
        };
        Ok(
            UpArgs {
                name: match self.name {
                    Some(n) => n,
                    None => owned("vllm"),
                },
                namespace: match self.namespace {
                    Some(n) => n,
                    None => None,
                },
                model: match self.model {
                    Some(m) => m,
                    None => None,
                },
                hf_token,
                local_port: match self.local_port {
                    Some(p) => p,
                    None => Some(8000),
                },
                remote_port: match self.remote_port {
                    Some(p) => p,
                    None => 8000,
                },
            },
        )
    }
}

/// The label selector of the server's pods.
pub open spec fn spec_pod_selector(name: Seq<char>, id: Seq<char>) -> Seq<char> {
    "app.kubernetes.io/name="@ + name + ",app.kubernetes.io/instance="@ + id
}

/// The label selector of the server's pods: its name and instance id.
pub fn pod_selector(name: &str, id: &str) -> (r: String)
    ensures
        r@ == spec_pod_selector(name@, id@),
{
    let mut r = owned("app.kubernetes.io/name=");
    push_text(&mut r, name);
    push_text(&mut r, ",app.kubernetes.io/instance=");
    push_text(&mut r, id);
    r
}

/// The container image tagged with the release: "{image}:v{version}".
pub fn versioned_image(image: &str, version: &str) -> (r: String)
    ensures
        r@ == image@ + ":v"@ + version@,
{
    let mut r = owned(image);
    push_text(&mut r, ":v");
    push_text(&mut r, version);
    r
}

/// Labels as pairs of characters.
pub open spec fn labels_view(v: Seq<(String, String)>) -> Seq<(Seq<char>, Seq<char>)> {
    Seq::new(v.len(), |i: int| (v[i].0@, v[i].1@))
}

/// The labels with the label `key`, where present, set to `value`.
pub open spec fn with_label(labels: Seq<(Seq<char>, Seq<char>)>, key: Seq<char>, value: Seq<char>) -> Seq<(Seq<char>, Seq<char>)> {
    Seq::new(
        labels.len(),
        |i: int|
            if labels[i].0 == key {
                (labels[i].0, value)
            } else {
                labels[i]
            },
    )
}

/// Set the label `key`, where present, to `value`.
pub fn set_label(labels: &mut Vec<(String, String)>, key: &str, value: &str)
    ensures
        labels_view(final(labels)@) == with_label(labels_view(old(labels)@), key@, value@),
{
    let ghost before = labels_view(labels@);
    let n = labels.len();
    let mut out: Vec<(String, String)> = Vec::new();
    let mut i: usize = 0;
    while i < n
        invariant
            n == labels@.len(),
            before == labels_view(labels@),
            i <= n,
            out@.len() == i,
            forall|k: int| 0 <= k < i ==> #[trigger] labels_view(out@)[k] == with_label(before, key@, value@)[k],
        decreases n - i,
    {
        let (k, v) = &labels[i];
        assert(before[i as int] == (k@, v@));
        let entry = if same_text(k.as_str(), key) {
            (k.clone(), owned(value))
        } else {
            (k.clone(), v.clone())
        };
        let ghost old_out = out@;
        out.push(entry);
        assert forall|j: int| 0 <= j < i + 1 implies #[trigger] labels_view(out@)[j] == with_label(
            before,
            key@,
            value@,
        )[j] by {
            if j < i {
                assert(out@[j] == old_out[j]);
                assert(labels_view(old_out)[j] == with_label(before, key@, value@)[j]);
            }
        }
        i = i + 1;
    }
    assert(labels_view(out@) =~= with_label(before, key@, value@));
    *labels = out;
}

/// An environment variable of the server's container.
#[derive(Debug, Clone, PartialEq, Eq)]
pub struct EnvVar {
    pub name: String,
    pub value: Option<String>,
}

/// The template lacks an environment variable that must be set.
#[derive(Debug, Clone, Copy, PartialEq, Eq)]
pub enum ManifestError {
    /// The template has no MODEL variable (and a model was asked for).
    MissingModel,
    /// The template has no HF_TOKEN variable.
    MissingToken,
}

/// Some variable of the environment is named `name`.
pub open spec fn has_var(env: Seq<EnvVar>, name: Seq<char>) -> bool {
    exists|i: int| 0 <= i < env.len() && #[trigger] env[i].name@ == name
}

/// Variable `i` is the first of the environment named `name`.
pub open spec fn is_first_var(env: Seq<EnvVar>, i: int, name: Seq<char>) -> bool {
    &&& 0 <= i < env.len()
    &&& env[i].name@ == name
    &&& forall|j: int| 0 <= j < i ==> #[trigger] env[j].name@ != name
}

/// Patching succeeds: the template has HF_TOKEN, and MODEL when a model
/// is asked for.
pub open spec fn patch_succeeds(env: Seq<EnvVar>, model: Option<String>) -> bool {
    has_var(env, "HF_TOKEN"@) && (model is None || has_var(env, "MODEL"@))
}

/// The value of variable `i` after a successful patch: the token in the
/// first HF_TOKEN, the model (when asked for) in the first MODEL, the
/// template's value elsewhere.
pub open spec fn patched_value(env: Seq<EnvVar>, i: int, model: Option<String>, hf_token: String) -> Option<String> {
    if is_first_var(env, i, "HF_TOKEN"@) {
        Some(hf_token)
    } else if model is Some && is_first_var(env, i, "MODEL"@) {
        model
    } else {
        env[i].value
    }
}

/// Set the value of the first variable named `name`; fails when there is none.
fn set_env(env: &mut Vec<EnvVar>, name: &str, value: String) -> (found: bool)
    ensures
        found == has_var(old(env)@, name@),
        found ==> exists|i: int|
            #![trigger old(env)@[i]]
            is_first_var(old(env)@, i, name@) && final(env)@ == old(env)@.update(
                i,
                EnvVar { name: old(env)@[i].name, value: Some(value) },
            ),
        !found ==> final(env)@ == old(env)@,
{
    let n = env.len();
    let mut i: usize = 0;
    while i < n
        invariant
            n == env@.len(),
            env@ == old(env)@,
            i <= n,
            forall|j: int| 0 <= j < i ==> #[trigger] env@[j].name@ != name@,
        decreases n - i,
    {
        if same_text(env[i].name.as_str(), name) {
            let var_name = env[i].name.clone();
            env.set(i, EnvVar { name: var_name, value: Some(value) });
            assert(old(env)@[i as int].name@ == name@);
            assert(is_first_var(old(env)@, i as int, name@));
            assert(env@ == old(env)@.update(i as int, EnvVar { name: old(env)@[i as int].name, value: Some(value) }));
            return true;
        }
        i = i + 1;
    }
    proof {
        if has_var(old(env)@, name@) {
            let k = choose|k: int| 0 <= k < old(env)@.len() && #[trigger] old(env)@[k].name@ == name@;
            assert(env@[k].name@ != name@);
        }
    }
    false
}

/// Set the container's environment for the server: MODEL (only when a
/// model is asked for) and HF_TOKEN, each the first variable of its
/// name. It succeeds exactly when the template has each variable that is
/// set; a missing MODEL is reported before a missing HF_TOKEN.
pub fn patch_env(env: &mut Vec<EnvVar>, model: Option<String>, hf_token: String) -> (r: Result<(), ManifestError>)
    ensures
        (r is Ok) == patch_succeeds(old(env)@, model),
        (r == Err::<(), ManifestError>(ManifestError::MissingModel)) == (model is Some && !has_var(
            old(env)@,
            "MODEL"@,
        )),
        r == Err::<(), ManifestError>(ManifestError::MissingModel) ==> final(env)@ == old(env)@,
        final(env)@.len() == old(env)@.len(),
        forall|i: int| 0 <= i < final(env)@.len() ==> #[trigger] final(env)@[i].name == old(env)@[i].name,
        r is Ok ==> forall|i: int|
            0 <= i < final(env)@.len() ==> #[trigger] final(env)@[i].value == patched_value(
                old(env)@,
                i,
                model,
                hf_token,
            ),
{
    proof {
        reveal_strlit("MODEL");
        reveal_strlit("HF_TOKEN");
        assert("MODEL"@ != "HF_TOKEN"@) by {
            assert("MODEL"@.len() != "HF_TOKEN"@.len());
        }
    }
    let ghost initial = env@;
    let ghost mut im: int = -1;
    match model {
        Some(m) => {
            if !set_env(env, "MODEL", m) {
                return Err(ManifestError::MissingModel);
            }
            proof {
                im = choose|i: int|
                    #![trigger initial[i]]
                    is_first_var(initial, i, "MODEL"@) && env@ == initial.update(
                        i,
                        EnvVar { name: initial[i].name, value: Some(m) },
                    );
            }
        },
        None => {},
    }
    let ghost middle = env@;
    assert(middle.len() == initial.len());
    assert(forall|i: int| 0 <= i < middle.len() ==> #[trigger] middle[i].name == initial[i].name);
    assert(has_var(middle, "HF_TOKEN"@) == has_var(initial, "HF_TOKEN"@)) by {
        if has_var(initial, "HF_TOKEN"@) {
            let k = choose|k: int| 0 <= k < initial.len() && #[trigger] initial[k].name@ == "HF_TOKEN"@;
            assert(middle[k].name == initial[k].name);
        }
        if has_var(middle, "HF_TOKEN"@) {
            let k = choose|k: int| 0 <= k < middle.len() && #[trigger] middle[k].name@ == "HF_TOKEN"@;
            assert(middle[k].name == initial[k].name);
        }
    }
    if !set_env(env, "HF_TOKEN", hf_token) {
        return Err(ManifestError::MissingToken);
    }
    proof {
        let it = choose|i: int|
            #![trigger middle[i]]
            is_first_var(middle, i, "HF_TOKEN"@) && env@ == middle.update(
                i,
                EnvVar { name: middle[i].name, value: Some(hf_token) },
            );
        assert(forall|j: int| 0 <= j < env@.len() ==> #[trigger] env@[j].name == middle[j].name);
        assert(is_first_var(initial, it, "HF_TOKEN"@)) by {
            assert(middle[it].name == initial[it].name);
            assert forall|j: int| 0 <= j < it implies #[trigger] initial[j].name@ != "HF_TOKEN"@ by {
                assert(middle[j].name == initial[j].name);
            }
        }
        assert forall|i: int| 0 <= i < env@.len() implies #[trigger] env@[i].value == patched_value(
            initial,
            i,
            model,
            hf_token,
        ) by {
            if i == it {
            } else {
                assert(!is_first_var(initial, i, "HF_TOKEN"@)) by {
                    if is_first_var(initial, i, "HF_TOKEN"@) {
                        if i < it {
                            assert(initial[i].name@ != "HF_TOKEN"@);
                        } else {
                            assert(initial[it].name@ != "HF_TOKEN"@);
                        }
                    }
                }
                assert(env@[i] == middle[i]);
                if model is Some {
                    if i == im {
                        assert(middle[im].value == model);
                    } else {
                        assert(middle[i] == initial[i]);
                        if is_first_var(initial, i, "MODEL"@) {
                            if i < im {
                                assert(initial[i].name@ != "MODEL"@);
                            } else {
                                assert(initial[im].name@ != "MODEL"@);
                            }
                        }
                    }
                } else {
                    assert(middle == initial);
                }
            }
        }
    }
    Ok(())
}

/// A condition of a pod: its type and status.
#[derive(Debug, Clone, PartialEq, Eq)]
pub struct PodCondition {
    pub condition_type: String,
    pub status: String,
}

/// A "Ready" condition whose status is "True".
pub open spec fn is_ready_condition(c: PodCondition) -> bool {
    c.condition_type@ == "Ready"@ && c.status@ == "True"@
}

/// Some condition is a "Ready" condition whose status is "True".
pub open spec fn conditions_ready(c: Seq<PodCondition>) -> bool {
    exists|i: int| 0 <= i < c.len() && #[trigger] is_ready_condition(c[i])
}

/// A pod is ready: it has a status whose conditions make it ready.
pub open spec fn spec_pod_ready(conditions: Option<Seq<PodCondition>>) -> bool {
    match conditions {
        Some(c) => conditions_ready(c),
        None => false,
    }
}

/// Whether some condition is a "Ready" condition whose status is "True".
fn any_ready(c: &Vec<PodCondition>) -> (r: bool)
    ensures
        r == conditions_ready(c@),
{
    let n = c.len();
    let mut i: usize = 0;
    while i < n
        invariant
            n == c@.len(),
            i <= n,
            forall|k: int| 0 <= k < i ==> !is_ready_condition(#[trigger] c@[k]),
        decreases n - i,
    {
        if same_text(c[i].condition_type.as_str(), "Ready") && same_text(c[i].status.as_str(), "True") {
            assert(is_ready_condition(c@[i as int]));
            return true;
        }
        i = i + 1;
    }
    false
}

/// Whether a pod is ready, by its conditions (none when it has no status).
pub fn pod_ready(conditions: &Option<Vec<PodCondition>>) -> (r: bool)
    ensures
        r == spec_pod_ready(
            match conditions {
                Some(c) => Some(c@),
                None => None,
            },
        ),
{
    match conditions {
        Some(c) => {
            any_ready(c)
        },
        None => false,
    }
}

/// The name of the first ready pod, given each pod's name and conditions.
pub fn first_ready_pod(pods: &Vec<(String, Option<Vec<PodCondition>>)>) -> (r: Option<String>)
    ensures
        match r {
            Some(name) => exists|i: int|
                0 <= i < pods@.len() && name@ == pods@[i].0@ && spec_pod_ready(
                    match pods@[i].1 {
                        Some(c) => Some(c@),
                        None => None,
                    },
                ) && (forall|j: int|
                    0 <= j < i ==> !spec_pod_ready(
                        match #[trigger] pods@[j].1 {
                            Some(c) => Some(c@),
                            None => None,
                        },
                    )),
            None => forall|i: int|
                0 <= i < pods@.len() ==> !spec_pod_ready(
                    match #[trigger] pods@[i].1 {
                        Some(c) => Some(c@),
                        None => None,
                    },
                ),
        },
{
    let n = pods.len();
    let mut i: usize = 0;
    while i < n
        invariant
            n == pods@.len(),
            i <= n,
            forall|j: int|
                0 <= j < i ==> !spec_pod_ready(
                    match #[trigger] pods@[j].1 {
                        Some(c) => Some(c@),
                        None => None,
                    },
                ),
        decreases n - i,
    {
        if pod_ready(&pods[i].1) {
            return Some(pods[i].0.clone());
        }
        i = i + 1;
    }
    None
}

} // verus!
