//! Filling the server's deployment manifest from its template: the
//! deployment's name, the image of this version, the labels that select
//! its pods, and the model and token in its container's environment.

use vstd::prelude::*;

use crate::deploy::{
    has_var, labels_view, patch_env, patch_succeeds, patched_value, set_label, versioned_image,
    with_label, EnvVar, ManifestError, UpArgs,
};
use crate::text::owned;

use k8s_openapi::api::apps::v1::Deployment;

verus! {

/// A Kubernetes deployment, carried through unopened.
#[verifier::external_type_specification]
#[verifier::external_body]
pub struct ExDeployment(Deployment);

/// What the manifest is filled from, as read from a deployment: its
/// name; whether its pod template has a container; the first
/// container's image and environment; the labels that select its pods;
/// and the labels of its pod template.
pub struct ManifestFields {
    pub name: Option<String>,
    pub has_container: bool,
    pub image: Option<String>,
    pub match_labels: Option<Vec<(String, String)>>,
    pub template_labels: Option<Vec<(String, String)>>,
    pub env: Option<Vec<EnvVar>>,
}

/// The mathematical value of [`ManifestFields`].
pub struct FieldsModel {
    pub name: Option<Seq<char>>,
    pub has_container: bool,
    pub image: Option<Seq<char>>,
    pub match_labels: Option<Seq<(Seq<char>, Seq<char>)>>,
    pub template_labels: Option<Seq<(Seq<char>, Seq<char>)>>,
    pub env: Option<Seq<EnvVar>>,
}

/// The characters of an optional text.
pub open spec fn opt_view(s: Option<String>) -> Option<Seq<char>> {
    match s {
        Some(t) => Some(t@),
        None => None,
    }
}

/// The characters of optional labels.
pub open spec fn opt_labels(l: Option<Vec<(String, String)>>) -> Option<Seq<(Seq<char>, Seq<char>)>> {
    match l {
        Some(v) => Some(labels_view(v@)),
        None => None,
    }
}

impl View for ManifestFields {
    type V = FieldsModel;

    open spec fn view(&self) -> FieldsModel {
        FieldsModel {
            name: opt_view(self.name),
            has_container: self.has_container,
            image: opt_view(self.image),
            match_labels: opt_labels(self.match_labels),
            template_labels: opt_labels(self.template_labels),
            env: match self.env {
                Some(e) => Some(e@),
                None => None,
            },
        }
    }
}

/// The label naming the deployment.
pub open spec fn name_key() -> Seq<char> {
    "app.kubernetes.io/name"@
}

/// The label naming the instance.
pub open spec fn instance_key() -> Seq<char> {
    "app.kubernetes.io/instance"@
}

/// The fields fill in only when the pod template has an environment.
pub open spec fn env_patched(m: FieldsModel) -> bool {
    m.has_container && m.env is Some
}

/// Filling fails: the environment lacks a variable that must be set.
pub open spec fn fill_fails(m: FieldsModel, model: Option<String>) -> bool {
    env_patched(m) && !patch_succeeds(m.env->0, model)
}

/// The environment after filling: same names, values patched.
pub open spec fn env_filled(before: Seq<EnvVar>, after: Seq<EnvVar>, model: Option<String>, hf_token: String) -> bool {
    &&& after.len() == before.len()
    &&& forall|i: int| 0 <= i < after.len() ==> #[trigger] after[i].name == before[i].name
    &&& forall|i: int|
        0 <= i < after.len() ==> #[trigger] after[i].value == patched_value(before, i, model, hf_token)
}

/// `f` is `m` filled for a deployment named `name`, asking for `model`
/// with `hf_token`, for image `version` and instance `id`: the name is
/// set; when the pod template has a container, the image gets the
/// version, the pod selector and pod labels name the deployment (the pod
/// labels also name the instance), where these are present, and the
/// environment gets the model and token (see [`patched_value`]).
pub open spec fn filled_from(
    m: FieldsModel,
    f: FieldsModel,
    model: Option<String>,
    name: Seq<char>,
    hf_token: String,
    version: Seq<char>,
    id: Seq<char>,
) -> bool {
    &&& f.name == Some(name)
    &&& f.has_container == m.has_container
    &&& f.image == if m.has_container && m.image is Some {
        Some(m.image->0 + ":v"@ + version)
    } else {
        m.image
    }
    &&& f.match_labels == if m.has_container && m.match_labels is Some {
        Some(with_label(m.match_labels->0, name_key(), name))
    } else {
        m.match_labels
    }
    &&& f.template_labels == if m.has_container && m.template_labels is Some {
        Some(with_label(with_label(m.template_labels->0, name_key(), name), instance_key(), id))
    } else {
        m.template_labels
    }
    &&& env_patched(m) ==> f.env is Some && env_filled(m.env->0, f.env->0, model, hf_token)
    &&& !env_patched(m) ==> f.env == m.env
}

/// Fill the manifest for `args`: the deployment is named after them; when
/// its pod template has a container, the image gets this version, the
/// pod selector and pod labels name the deployment (the pod labels also
/// name instance `id`, where these labels are present), and the
/// environment gets the model and token (see [`patch_env`]).
pub fn fill_manifest(fields: ManifestFields, args: &UpArgs, version: &str, id: &str) -> (r: Result<
    ManifestFields,
    ManifestError,
>)
    ensures
        (r is Err) == fill_fails(fields@, args.spec_model()),
        (r == Err::<ManifestFields, ManifestError>(ManifestError::MissingModel)) == (env_patched(
            fields@,
        ) && args.spec_model() is Some && !has_var(fields@.env->0, "MODEL"@)),
        r is Ok ==> filled_from(
            fields@,
            r->Ok_0@,
            args.spec_model(),
            args.spec_name(),
            args.spec_hf_token_string(),
            version@,
            id@,
        ),
{
    let ManifestFields { name: _, has_container, image, match_labels, template_labels, env } = fields;
    let name = args.name().clone();
    if !has_container {
        return Ok(ManifestFields {
            name: Some(name),
            has_container,
            image,
            match_labels,
            template_labels,
            env,
        });
    }
    let image = match image {
        Some(i) => Some(versioned_image(i.as_str(), version)),
        None => None,
    };
    let match_labels = match match_labels {
        Some(l) => {
            let mut l = l;
            set_label(&mut l, "app.kubernetes.io/name", name.as_str());
            Some(l)
        },
        None => None,
    };
    let template_labels = match template_labels {
        Some(l) => {
            let mut l = l;
            set_label(&mut l, "app.kubernetes.io/name", name.as_str());
            set_label(&mut l, "app.kubernetes.io/instance", id);
            Some(l)
        },
        None => None,
    };
    let env = match env {
        Some(e) => {
            let mut e = e;
            match patch_env(&mut e, args.model().clone(), args.hf_token().clone()) {
                Ok(()) => Some(e),
                Err(err) => {
                    return Err(err);
                },
            }
        },
        None => None,
    };
    Ok(ManifestFields { name: Some(name), has_container, image, match_labels, template_labels, env })
}

/// A container of the pod template: its image and its environment
/// (each variable's name and value).
pub struct ContainerParts {
    pub image: Option<String>,
    pub env: Option<Vec<EnvVar>>,
}

/// The mathematical value of [`ContainerParts`].
pub struct ContainerModel {
    pub image: Option<Seq<char>>,
    pub env: Option<Seq<EnvVar>>,
}

/// A deployment taken apart: the labels that select its pods,
/// the labels of its pod template (`None` when the template has no
/// metadata), its containers (`None` when the template has no pod spec),
/// and the rest of the deployment, which these are taken out of.
pub struct TemplateParts {
    pub selector_labels: Option<Vec<(String, String)>>,
    pub pod_labels: Option<Option<Vec<(String, String)>>>,
    pub containers: Option<Vec<ContainerParts>>,
    pub rest: Deployment,
}

/// The mathematical value of [`TemplateParts`], without the rest.
pub struct PartsModel {
    pub selector_labels: Option<Seq<(Seq<char>, Seq<char>)>>,
    pub pod_labels: Option<Option<Seq<(Seq<char>, Seq<char>)>>>,
    pub containers: Option<Seq<ContainerModel>>,
}

/// The value of a container.
pub open spec fn container_model(c: ContainerParts) -> ContainerModel {
    ContainerModel {
        image: opt_view(c.image),
        env: match c.env {
            Some(e) => Some(e@),
            None => None,
        },
    }
}

impl View for TemplateParts {
    type V = PartsModel;

    open spec fn view(&self) -> PartsModel {
        PartsModel {
            selector_labels: opt_labels(self.selector_labels),
            pod_labels: match self.pod_labels {
                Some(l) => Some(opt_labels(l)),
                None => None,
            },
            containers: match self.containers {
                Some(cs) => Some(cs@.map_values(|c: ContainerParts| container_model(c))),
                None => None,
            },
        }
    }
}

/// The pod template has a container.
pub open spec fn parts_have_container(p: PartsModel) -> bool {
    p.containers is Some && p.containers->0.len() > 0
}

/// What the manifest is filled from: the first container's image and
/// environment, the pod selector and the pod labels.
pub open spec fn fields_of(p: PartsModel) -> FieldsModel {
    let has = parts_have_container(p);
    FieldsModel {
        name: None,
        has_container: has,
        image: if has {
            p.containers->0[0].image
        } else {
            None
        },
        match_labels: p.selector_labels,
        template_labels: match p.pod_labels {
            Some(l) => l,
            None => None,
        },
        env: if has {
            p.containers->0[0].env
        } else {
            None
        },
    }
}

/// The parts with the filled fields put back where they were read.
pub open spec fn with_fields(p: PartsModel, f: FieldsModel) -> PartsModel {
    PartsModel {
        selector_labels: f.match_labels,
        pod_labels: match p.pod_labels {
            Some(_) => Some(f.template_labels),
            None => None,
        },
        containers: if parts_have_container(p) {
            Some(p.containers->0.update(0, ContainerModel { image: f.image, env: f.env }))
        } else {
            p.containers
        },
    }
}

/// A copy of an optional text.
fn copy_text(s: &Option<String>) -> (r: Option<String>)
    ensures
        r == *s,
{
    match s {
        Some(t) => Some(t.clone()),
        None => None,
    }
}

/// A copy of optional labels.
fn copy_labels(l: &Option<Vec<(String, String)>>) -> (r: Option<Vec<(String, String)>>)
    ensures
        opt_labels(r) == opt_labels(*l),
{
    match l {
        Some(v) => {
            let mut out: Vec<(String, String)> = Vec::new();
            let n = v.len();
            let mut i: usize = 0;
            while i < n
                invariant
                    n == v@.len(),
                    i <= n,
                    out@ == v@.subrange(0, i as int),
                decreases n - i,
            {
                let (a, b) = &v[i];
                out.push((a.clone(), b.clone()));
                assert(out@ =~= v@.subrange(0, i + 1));
                i = i + 1;
            }
            assert(out@ =~= v@);
            assert(labels_view(out@) =~= labels_view(v@));
            Some(out)
        },
        None => None,
    }
}

/// A copy of an optional environment.
fn copy_env(e: &Option<Vec<EnvVar>>) -> (r: Option<Vec<EnvVar>>)
    ensures
        r is Some == e is Some,
        r is Some ==> r->0@ == e->0@,
{
    match e {
        Some(v) => {
            let mut out: Vec<EnvVar> = Vec::new();
            let n = v.len();
            let mut i: usize = 0;
            while i < n
                invariant
                    n == v@.len(),
                    i <= n,
                    out@ == v@.subrange(0, i as int),
                decreases n - i,
            {
                out.push(EnvVar { name: v[i].name.clone(), value: copy_text(&v[i].value) });
                assert(out@ =~= v@.subrange(0, i + 1));
                i = i + 1;
            }
            assert(out@ =~= v@);
            Some(out)
        },
        None => None,
    }
}

/// Fill the parts of a deployment (see [`fill_manifest`]); gives the
/// filled parts and the fields that were filled.
pub fn fill_parts(p: TemplateParts, args: &UpArgs, version: &str, id: &str) -> (r: Result<
    (TemplateParts, ManifestFields),
    ManifestError,
>)
    ensures
        (r is Err) == fill_fails(fields_of(p@), args.spec_model()),
        (r == Err::<(TemplateParts, ManifestFields), ManifestError>(ManifestError::MissingModel)) == (
        env_patched(fields_of(p@)) && args.spec_model() is Some && !has_var(
            fields_of(p@).env->0,
            "MODEL"@,
        )),
        r is Ok ==> {
            let (q, f) = r->Ok_0;
            &&& filled_from(
                fields_of(p@),
                f@,
                args.spec_model(),
                args.spec_name(),
                args.spec_hf_token_string(),
                version@,
                id@,
            )
            &&& q@ == with_fields(p@, f@)
            &&& q.rest == p.rest
        },
{
    let ghost pm = p@;
    let TemplateParts { selector_labels, pod_labels, containers, rest } = p;
    let has_pod_meta = pod_labels.is_some();
    let template_labels = match pod_labels {
        Some(l) => l,
        None => None,
    };
    let mut has = false;
    let mut image: Option<String> = None;
    let mut env: Option<Vec<EnvVar>> = None;
    let mut others = containers;
    let ghost cs0 = others;
    if let Some(cs) = &mut others {
        if cs.len() > 0 {
            let c0 = cs.remove(0);
            has = true;
            image = c0.image;
            env = c0.env;
        }
    }
    let fields = ManifestFields {
        name: None,
        has_container: has,
        image,
        match_labels: selector_labels,
        template_labels,
        env,
    };
    assert(fields@ == fields_of(pm));
    let f = match fill_manifest(fields, args, version, id) {
        Ok(f) => f,
        Err(e) => {
            return Err(e);
        },
    };
    let ghost fm = f@;
    let ManifestFields {
        name: f_name,
        has_container: f_has,
        image: f_image,
        match_labels: f_match,
        template_labels: f_template,
        env: f_env,
    } = f;
    let pod_labels = if has_pod_meta {
        Some(copy_labels(&f_template))
    } else {
        None
    };
    if let Some(cs) = &mut others {
        if has {
            cs.insert(0, ContainerParts { image: copy_text(&f_image), env: copy_env(&f_env) });
        }
    }
    let filled = ManifestFields {
        name: f_name,
        has_container: f_has,
        image: f_image,
        match_labels: copy_labels(&f_match),
        template_labels: f_template,
        env: f_env,
    };
    let q = TemplateParts {
        selector_labels: f_match,
        pod_labels,
        containers: others,
        rest,
    };
    proof {
        assert(filled@ == fm);
        if parts_have_container(pm) {
            let a = q@.containers->0;
            let b = pm.containers->0.update(0, ContainerModel { image: fm.image, env: fm.env });
            assert(a =~= b);
        }
        assert(q@ == with_fields(pm, fm));
    }
    Ok((q, filled))
}

/// A variable of an environment as its name and value.
pub open spec fn env_pair(v: EnvVar) -> (Seq<char>, Option<Seq<char>>) {
    (v.name@, opt_view(v.value))
}

/// An environment as names and values.
pub open spec fn env_pairs(e: Option<Seq<EnvVar>>) -> Option<Seq<(Seq<char>, Option<Seq<char>>)>> {
    match e {
        Some(v) => Some(Seq::new(v.len(), |j: int| env_pair(v[j]))),
        None => None,
    }
}

/// An environment with its values taken out: the names, without values.
pub open spec fn blank_env(e: Option<Seq<EnvVar>>) -> Option<Seq<(Seq<char>, Option<Seq<char>>)>> {
    match e {
        Some(v) => Some(Seq::new(v.len(), |j: int| (v[j].name@, None::<Seq<char>>))),
        None => None,
    }
}

/// The images of the containers.
pub open spec fn images_of(cs: Option<Seq<ContainerModel>>) -> Option<Seq<Option<Seq<char>>>> {
    match cs {
        Some(c) => Some(Seq::new(c.len(), |i: int| c[i].image)),
        None => None,
    }
}

/// The environments of the containers, as names and values.
pub open spec fn envs_of(cs: Option<Seq<ContainerModel>>) -> Option<Seq<Option<Seq<(Seq<char>, Option<Seq<char>>)>>>> {
    match cs {
        Some(c) => Some(Seq::new(c.len(), |i: int| env_pairs(c[i].env))),
        None => None,
    }
}

/// The images of the containers, taken out.
pub open spec fn blank_images(cs: Option<Seq<ContainerModel>>) -> Option<Seq<Option<Seq<char>>>> {
    match cs {
        Some(c) => Some(Seq::new(c.len(), |i: int| None::<Seq<char>>)),
        None => None,
    }
}

/// The environments of the containers, with their values taken out.
pub open spec fn blank_envs(cs: Option<Seq<ContainerModel>>) -> Option<Seq<Option<Seq<(Seq<char>, Option<Seq<char>>)>>>> {
    match cs {
        Some(c) => Some(Seq::new(c.len(), |i: int| blank_env(c[i].env))),
        None => None,
    }
}

/// Labels as a map (where it is used, no key is given twice).
pub open spec fn labels_map(l: Seq<(Seq<char>, Seq<char>)>) -> Map<Seq<char>, Seq<char>>
    decreases l.len(),
{
    if l.len() == 0 {
        Map::empty()
    } else {
        labels_map(l.drop_last()).insert(l.last().0, l.last().1)
    }
}

/// Optional labels as a map.
pub open spec fn opt_labels_map(l: Option<Seq<(Seq<char>, Seq<char>)>>) -> Option<Map<Seq<char>, Seq<char>>> {
    match l {
        Some(v) => Some(labels_map(v)),
        None => None,
    }
}

/// The containers of a [`TemplateParts`] as values.
pub open spec fn containers_view(cs: Option<Vec<ContainerParts>>) -> Option<Seq<ContainerModel>> {
    match cs {
        Some(c) => Some(c@.map_values(|x: ContainerParts| container_model(x))),
        None => None,
    }
}

/// Images put back: each container that has a new image part gets it.
pub open spec fn put_images(old: Option<Seq<Option<Seq<char>>>>, cs: Option<Seq<ContainerModel>>) -> Option<Seq<Option<Seq<char>>>> {
    match (old, cs) {
        (Some(o), Some(c)) => Some(Seq::new(o.len(), |i: int| if i < c.len() { c[i].image } else { o[i] })),
        (x, _) => x,
    }
}

/// Variable values put back, variable by variable.
pub open spec fn put_env_values(
    old: Option<Seq<(Seq<char>, Option<Seq<char>>)>>,
    new: Option<Seq<EnvVar>>,
) -> Option<Seq<(Seq<char>, Option<Seq<char>>)>> {
    match (old, new) {
        (Some(o), Some(n)) => Some(
            Seq::new(o.len(), |j: int| if j < n.len() { (o[j].0, opt_view(n[j].value)) } else { o[j] }),
        ),
        (x, _) => x,
    }
}

/// Environments put back, container by container.
pub open spec fn put_envs(
    old: Option<Seq<Option<Seq<(Seq<char>, Option<Seq<char>>)>>>>,
    cs: Option<Seq<ContainerModel>>,
) -> Option<Seq<Option<Seq<(Seq<char>, Option<Seq<char>>)>>>> {
    match (old, cs) {
        (Some(o), Some(c)) => Some(
            Seq::new(o.len(), |i: int| if i < c.len() { put_env_values(o[i], c[i].env) } else { o[i] }),
        ),
        (x, _) => x,
    }
}

/// No key is given twice.
pub open spec fn keys_distinct(l: Seq<(Seq<char>, Seq<char>)>) -> bool {
    forall|i: int, j: int| 0 <= i < j < l.len() ==> #[trigger] l[i].0 != #[trigger] l[j].0
}

/// No key is given twice, where there are labels.
pub open spec fn opt_keys_distinct(l: Option<Seq<(Seq<char>, Seq<char>)>>) -> bool {
    match l {
        Some(v) => keys_distinct(v),
        None => true,
    }
}

/// Setting a label keeps the keys.
proof fn lemma_with_label_keys(l: Seq<(Seq<char>, Seq<char>)>, key: Seq<char>, value: Seq<char>)
    requires
        keys_distinct(l),
    ensures
        keys_distinct(with_label(l, key, value)),
{
    let w = with_label(l, key, value);
    assert forall|i: int, j: int| 0 <= i < j < w.len() implies #[trigger] w[i].0 != #[trigger] w[j].0 by {
        assert(w[i].0 == l[i].0 && w[j].0 == l[j].0);
    }
}

/// What a deployment holds: its name (`metadata.name`).
pub uninterp spec fn deployment_name(d: Deployment) -> Option<Seq<char>>;

/// What a deployment holds: the labels that select its pods
/// (`spec.selector.matchLabels`).
pub uninterp spec fn selector_labels_of(d: Deployment) -> Option<Map<Seq<char>, Seq<char>>>;

/// What a deployment holds: the labels of its pod template (`None` when
/// the template has no metadata).
pub uninterp spec fn pod_labels_of(d: Deployment) -> Option<Option<Map<Seq<char>, Seq<char>>>>;

/// What a deployment holds: the image of each container of its pod
/// template (`None` when the template has no pod spec).
pub uninterp spec fn container_images(d: Deployment) -> Option<Seq<Option<Seq<char>>>>;

/// What a deployment holds: the environment of each container of its pod
/// template, as names and values (`None` when the template has no pod spec).
pub uninterp spec fn container_envs(d: Deployment) -> Option<Seq<Option<Seq<(Seq<char>, Option<Seq<char>>)>>>>;

/// What `serde_yaml2` reads from a deployment template, taken apart (see
/// [`TemplateParts`]): the parts, or the reader's message.
pub uninterp spec fn template_parts(text: Seq<char>) -> Result<PartsModel, Seq<char>>;

/// `serde_yaml2::from_str` into a deployment, taken apart: the
/// pod selector's labels, the pod template's labels, and each
/// container's image and variable values are moved out of the
/// deployment (variable names are copied); or the reader's message.
#[verifier::external_body]
fn parse_template(text: &str) -> (r: Result<TemplateParts, String>)
    ensures
        match r {
            Ok(p) => {
                &&& template_parts(text@) == Ok::<PartsModel, Seq<char>>(p@)
                &&& opt_keys_distinct(p@.selector_labels)
                &&& (p@.pod_labels matches Some(l) ==> opt_keys_distinct(l))
                &&& selector_labels_of(p.rest) == None::<Map<Seq<char>, Seq<char>>>
                &&& pod_labels_of(p.rest) == match p@.pod_labels {
                    Some(_) => Some(None::<Map<Seq<char>, Seq<char>>>),
                    None => None,
                }
                &&& container_images(p.rest) == blank_images(p@.containers)
                &&& container_envs(p.rest) == blank_envs(p@.containers)
            },
            Err(m) => template_parts(text@) == Err::<PartsModel, Seq<char>>(m@),
        },
{
    let mut d: Deployment = serde_yaml2::from_str(text).map_err(|e| e.to_string())?;
    Ok(TemplateParts {
        selector_labels: d.spec.selector.match_labels.take().map(Vec::from_iter),
        pod_labels: d.spec.template.metadata.as_mut().map(|m| m.labels.take().map(Vec::from_iter)),
        containers: d.spec.template.spec.as_mut().map(|s| s.containers.iter_mut().map(|c| ContainerParts {
            image: c.image.take(),
            env: c.env.as_mut().map(|e| e.iter_mut().map(|v| EnvVar { name: v.name.clone(), value: v.value.take() }).collect()),
        }).collect()),
        rest: d,
    })
}

/// Set the deployment's name, and put the pod selector's labels and the
/// pod template's labels (where the template has metadata) back into the
/// deployment they were taken out of. The labels have distinct keys, so
/// the map each becomes holds exactly them.
#[verifier::external_body]
fn put_labels(
    mut d: Deployment,
    name: Option<String>,
    selector_labels: Option<Vec<(String, String)>>,
    pod_labels: Option<Option<Vec<(String, String)>>>,
) -> (r: Deployment)
    requires
        opt_keys_distinct(opt_labels(selector_labels)),
        pod_labels matches Some(l) ==> opt_keys_distinct(opt_labels(l)),
    ensures
        deployment_name(r) == opt_view(name),
        selector_labels_of(r) == opt_labels_map(opt_labels(selector_labels)),
        pod_labels_of(r) == match (pod_labels_of(d), pod_labels) {
            (Some(_), Some(l)) => Some(opt_labels_map(opt_labels(l))),
            (x, _) => x,
        },
        container_images(r) == container_images(d),
        container_envs(r) == container_envs(d),
{
    d.metadata.name = name;
    d.spec.selector.match_labels = selector_labels.map(|l| l.into_iter().collect());
    if let (Some(m), Some(l)) = (d.spec.template.metadata.as_mut(), pod_labels) {
        m.labels = l.map(|l| l.into_iter().collect());
    }
    d
}

/// Put each container's image and variable values back into the
/// deployment they were taken out of, container by container and
/// variable by variable.
#[verifier::external_body]
fn put_containers(mut d: Deployment, containers: Option<Vec<ContainerParts>>) -> (r: Deployment)
    ensures
        deployment_name(r) == deployment_name(d),
        selector_labels_of(r) == selector_labels_of(d),
        pod_labels_of(r) == pod_labels_of(d),
        container_images(r) == put_images(container_images(d), containers_view(containers)),
        container_envs(r) == put_envs(container_envs(d), containers_view(containers)),
{
    if let (Some(s), Some(cs)) = (d.spec.template.spec.as_mut(), containers) {
        for (c, parts) in s.containers.iter_mut().zip(cs) {
            c.image = parts.image;
            if let (Some(vars), Some(vals)) = (c.env.as_mut(), parts.env) {
                for (v, x) in vars.iter_mut().zip(vals) {
                    v.value = x.value;
                }
            }
        }
    }
    d
}

/// The deployment holds the filled fields where they were read: it is
/// named `name`; its pod selector and pod labels are the filled ones (the
/// pod labels only where the template has metadata); and its containers
/// have the images and environments of the template with the first
/// container's filled in (see [`with_fields`]).
pub open spec fn deployment_written(d: Deployment, p: PartsModel, f: FieldsModel, name: Seq<char>) -> bool {
    &&& deployment_name(d) == Some(name)
    &&& selector_labels_of(d) == opt_labels_map(f.match_labels)
    &&& pod_labels_of(d) == match p.pod_labels {
        Some(_) => Some(opt_labels_map(f.template_labels)),
        None => None,
    }
    &&& container_images(d) == images_of(with_fields(p, f).containers)
    &&& container_envs(d) == envs_of(with_fields(p, f).containers)
}

/// Putting values back into an environment whose values were taken out
/// gives the new environment, when its names are the same.
proof fn lemma_env_put_back(a: Option<Seq<EnvVar>>, b: Option<Seq<EnvVar>>)
    requires
        (a is Some) == (b is Some),
        a is Some ==> a->0.len() == b->0.len() && forall|j: int|
            0 <= j < a->0.len() ==> #[trigger] a->0[j].name == b->0[j].name,
    ensures
        put_env_values(blank_env(a), b) == env_pairs(b),
{
    if a is Some {
        let x = put_env_values(blank_env(a), b)->0;
        let y = env_pairs(b)->0;
        assert forall|j: int| 0 <= j < x.len() implies x[j] == y[j] by {
            assert(a->0[j].name == b->0[j].name);
        }
        assert(x =~= y);
    }
}

/// A failure to fill the manifest.
#[derive(Debug, Clone, PartialEq, Eq)]
pub enum LoadError {
    /// The template is not a deployment, with the reader's message.
    Template(String),
    /// The template's environment lacks a variable that must be set.
    Manifest(ManifestError),
}

/// The deployment of the server for `args`, from the YAML `template`, for
/// image `version` and instance `id`, with the fields that were filled
/// into it. It fails when the template cannot be read, and otherwise
/// exactly as [`fill_parts`] fails on what the template holds; on
/// success, the fields are filled as [`filled_from`] says, and are put
/// back where they were read.
pub fn load_deployment_manifest(args: &UpArgs, template: &str, version: &str, id: &str) -> (r: Result<
    (Deployment, ManifestFields),
    LoadError,
>)
    ensures
        match template_parts(template@) {
            Err(m) => r matches Err(LoadError::Template(msg)) && msg@ == m,
            Ok(p) => {
                &&& (r is Ok) == !fill_fails(fields_of(p), args.spec_model())
                &&& r is Err ==> (r matches Err(LoadError::Manifest(_)))
                &&& (r == Err::<(Deployment, ManifestFields), LoadError>(
                    LoadError::Manifest(ManifestError::MissingModel),
                )) == (env_patched(fields_of(p)) && args.spec_model() is Some && !has_var(
                    fields_of(p).env->0,
                    "MODEL"@,
                ))
                &&& r is Ok ==> filled_from(
                    fields_of(p),
                    r->Ok_0.1@,
                    args.spec_model(),
                    args.spec_name(),
                    args.spec_hf_token_string(),
                    version@,
                    id@,
                )
                &&& r is Ok ==> deployment_written(r->Ok_0.0, p, r->Ok_0.1@, args.spec_name())
            },
        },
{
    let parts = match parse_template(template) {
        Ok(p) => p,
        Err(message) => {
            return Err(LoadError::Template(message));
        },
    };
    let ghost pm = parts@;
    let ghost rest0 = parts.rest;
    let (filled, fields) = match fill_parts(parts, args, version, id) {
        Ok(r) => r,
        Err(e) => {
            return Err(LoadError::Manifest(e));
        },
    };
    let TemplateParts { selector_labels, pod_labels, containers, rest } = filled;
    let ghost fm = fields@;
    let ghost qm = with_fields(pm, fm);
    let ghost qcs = containers_view(containers);
    proof {
        let m = fields_of(pm);
        if m.has_container && m.match_labels is Some {
            lemma_with_label_keys(m.match_labels->0, name_key(), args.spec_name());
        }
        if m.has_container && m.template_labels is Some {
            lemma_with_label_keys(m.template_labels->0, name_key(), args.spec_name());
            lemma_with_label_keys(
                with_label(m.template_labels->0, name_key(), args.spec_name()),
                instance_key(),
                id@,
            );
        }
    }
    let d1 = put_labels(rest, copy_text(&fields.name), selector_labels, pod_labels);
    let d = put_containers(d1, containers);
    proof {
        assert(qcs == qm.containers);
        let m = fields_of(pm);
        if pm.containers is Some {
            let pc = pm.containers->0;
            let qc = qcs->0;
            assert(qc.len() == pc.len());
            let xi = put_images(container_images(d1), qcs)->0;
            assert(xi =~= images_of(qm.containers)->0);
            let xe = put_envs(container_envs(d1), qcs)->0;
            let ye = envs_of(qm.containers)->0;
            assert forall|i: int| 0 <= i < xe.len() implies xe[i] == ye[i] by {
                if i == 0 && parts_have_container(pm) {
                    assert(qc[0].env == fm.env);
                    assert(m.env == pc[0].env);
                    if env_patched(m) {
                        assert(env_filled(m.env->0, fm.env->0, args.spec_model(), args.spec_hf_token_string()));
                    }
                    lemma_env_put_back(pc[0].env, qc[0].env);
                } else {
                    assert(qc[i] == pc[i]);
                    lemma_env_put_back(pc[i].env, qc[i].env);
                }
            }
            assert(xe =~= ye);
        }
    }
    Ok((d, fields))
}

} // verus!
