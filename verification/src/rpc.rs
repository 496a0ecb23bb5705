//! The decisions inside the remote-call plumbing: which id a service query
//! goes by, how a selection becomes a filter, what owner a team row shows,
//! and — the largest — how a deploy manifest becomes the upsert request the
//! service endpoint expects. The transport itself (channels, metadata,
//! generated clients) lives in the surrounding binary.

use vstd::prelude::*;

use crate::strutil::push_char;

verus! {

// ---------------------------------------------------------------------------
// Query selection
// ---------------------------------------------------------------------------
/// Which id a service listing goes by.
#[derive(Debug, Clone, PartialEq, Eq)]
pub enum ServiceQuery {
    ByProject(String),
    ByTeam(String),
    All,
}

/// An explicit project wins over a team; with neither, everything is
/// listed.
pub fn select_service_query(team_id: Option<String>, project_id: Option<String>) -> (q:
    ServiceQuery)
    ensures
        match (project_id, team_id) {
            (Option::Some(p), _) => q == ServiceQuery::ByProject(p),
            (Option::None, Option::Some(t)) => q == ServiceQuery::ByTeam(t),
            (Option::None, Option::None) => q == ServiceQuery::All,
        },
{
    match project_id {
        Option::Some(p) => ServiceQuery::ByProject(p),
        Option::None => match team_id {
            Option::Some(t) => ServiceQuery::ByTeam(t),
            Option::None => ServiceQuery::All,
        },
    }
}

/// An interactive selection: choosing the empty entry means no filter.
pub fn normalize_selection(id: String) -> (r: Option<String>)
    ensures
        id@.len() == 0 ==> r is None,
        id@.len() > 0 ==> r == Option::Some(id),
{
    if id.as_str().is_empty() {
        Option::None
    } else {
        Option::Some(id)
    }
}

/// The owner a team row shows: the meta record's owner email when the team
/// carries one, else the raw owner id.
pub fn owner_label(owner: String, meta_owner_email: Option<String>) -> (r: String)
    ensures
        match meta_owner_email {
            Option::Some(m) => r == m,
            Option::None => r == owner,
        },
{
    match meta_owner_email {
        Option::Some(m) => m,
        Option::None => owner,
    }
}

/// The deployment a service environment is currently running, with the
/// status string the remote service reports for it.
#[derive(Debug, Clone, PartialEq, Eq)]
pub enum ActiveDeployment {
    Docker(String),
    Postgres(String),
}

/// The status shown for a service environment: whichever deployment kind is
/// active contributes its status; with none active there is nothing to show.
pub fn active_deployment_status(active: Option<ActiveDeployment>) -> (r: Option<String>)
    ensures
        match active {
            Option::Some(ActiveDeployment::Docker(s)) => r == Option::Some(s),
            Option::Some(ActiveDeployment::Postgres(s)) => r == Option::Some(s),
            Option::None => r is None,
        },
{
    match active {
        Option::Some(ActiveDeployment::Docker(s)) => Option::Some(s),
        Option::Some(ActiveDeployment::Postgres(s)) => Option::Some(s),
        Option::None => Option::None,
    }
}

// ---------------------------------------------------------------------------
// The deploy manifest and its upsert request
// ---------------------------------------------------------------------------
/// One service of a deploy manifest, as read from the manifest file.
#[derive(Debug, Clone)]
pub struct ManifestService {
    pub name: String,
    pub service_type: String,
    pub image: String,
    pub plan: String,
    pub runtime: String,
    pub command: Option<String>,
    pub args: Option<Vec<String>>,
    pub regions: Option<Vec<String>>,
    pub ports: Option<Vec<u16>>,
    pub volumes: Option<Vec<String>>,
    pub env: Option<Vec<(String, String)>>,
    pub with_project_env: Option<bool>,
    pub registry_id: Option<String>,
    pub is_private: Option<bool>,
    pub is_privileged: Option<bool>,
}

/// A deploy manifest: the project and its services.
#[derive(Debug, Clone)]
pub struct DeployManifest {
    pub project_id: String,
    pub services: Vec<ManifestService>,
}

/// The docker deployment configuration of an upsert request.
#[derive(Debug, Clone)]
pub struct DockerConfig {
    pub image: String,
    pub registry_id: Option<String>,
    pub command: Option<String>,
    /// The manifest's argument list, joined with single spaces.
    pub args: Option<String>,
    pub runtime: String,
    pub is_private: Option<bool>,
    pub is_privileged: Option<bool>,
    pub plan: String,
    pub with_project_env: Option<bool>,
    pub env: Option<Vec<(String, String)>>,
    pub ports: Option<Vec<u16>>,
    pub regions: Option<Vec<String>>,
    pub volumes: Option<Vec<String>>,
    /// Always zero on an upsert: the service's state is not the caller's to
    /// set.
    pub status: u32,
}

/// What the upsert endpoint is sent for a deploy.
#[derive(Debug, Clone)]
pub struct UpsertServiceRequest {
    pub name: String,
    pub service_type: String,
    pub project_id: String,
    pub docker: DockerConfig,
}

/// The words joined with single spaces, no separator around the ends.
pub open spec fn spec_join_spaces(v: Seq<Seq<char>>, i: int) -> Seq<char>
    decreases v.len() - i when 0 <= i <= v.len()
{
    if i >= v.len() {
        Seq::empty()
    } else if i == v.len() - 1 {
        v[i]
    } else {
        v[i] + seq![' '] + spec_join_spaces(v, i + 1)
    }
}

fn join_spaces_from(items: &Vec<String>, i: usize, out: &mut String)
    requires
        i <= items@.len(),
    ensures
        final(out)@ == old(out)@ + spec_join_spaces(
            items@.map_values(|s: String| s@),
            i as int,
        ),
    decreases items@.len() - i,
{
    let ghost m = items@.map_values(|s: String| s@);
    if i >= items.len() {
        proof {
            assert(out@ + spec_join_spaces(m, i as int) =~= out@);
        }
        return ;
    }
    out.append(items[i].as_str());
    if i + 1 < items.len() {
        push_char(out, ' ');
        join_spaces_from(items, i + 1, out);
        proof {
            assert(m[i as int] == items@[i as int]@);
            assert(old(out)@ + m[i as int] + seq![' '] + spec_join_spaces(m, i + 1) =~= old(out)@
                + (m[i as int] + seq![' '] + spec_join_spaces(m, i + 1)));
        }
    } else {
        proof {
            assert(m[i as int] == items@[i as int]@);
            assert(out@ =~= old(out)@ + spec_join_spaces(m, i as int));
        }
    }
}

/// Joins command arguments into the single string the endpoint expects.
pub fn join_spaces(items: &Vec<String>) -> (r: String)
    ensures
        r@ == spec_join_spaces(items@.map_values(|s: String| s@), 0),
{
    let mut out = String::new();
    join_spaces_from(items, 0, &mut out);
    proof {
        assert(Seq::<char>::empty() + spec_join_spaces(
            items@.map_values(|s: String| s@),
            0,
        ) =~= spec_join_spaces(items@.map_values(|s: String| s@), 0));
    }
    out
}

/// Builds the upsert request for the manifest's first service: every field
/// is carried over as it stands, the argument list is joined with spaces,
/// and the status is fixed at zero.
pub fn to_upsert_request(m: DeployManifest) -> (r: UpsertServiceRequest)
    requires
        m.services.len() > 0,
    ensures
        r.name == m.services[0].name,
        r.service_type == m.services[0].service_type,
        r.project_id == m.project_id,
        r.docker.image == m.services[0].image,
        r.docker.registry_id == m.services[0].registry_id,
        r.docker.command == m.services[0].command,
        match m.services[0].args {
            Option::Some(a) => r.docker.args matches Option::Some(j) && j@ == spec_join_spaces(
                a@.map_values(|s: String| s@),
                0,
            ),
            Option::None => r.docker.args is None,
        },
        r.docker.runtime == m.services[0].runtime,
        r.docker.is_private == m.services[0].is_private,
        r.docker.is_privileged == m.services[0].is_privileged,
        r.docker.plan == m.services[0].plan,
        r.docker.with_project_env == m.services[0].with_project_env,
        r.docker.env == m.services[0].env,
        r.docker.ports == m.services[0].ports,
        r.docker.regions == m.services[0].regions,
        r.docker.volumes == m.services[0].volumes,
        r.docker.status == 0u32,
{
    let mut services = m.services;
    let s = services.remove(0);
    let args = match s.args {
        Option::Some(a) => Option::Some(join_spaces(&a)),
        Option::None => Option::None,
    };
    UpsertServiceRequest {
        name: s.name,
        service_type: s.service_type,
        project_id: m.project_id,
        docker: DockerConfig {
            image: s.image,
            registry_id: s.registry_id,
            command: s.command,
            args,
            runtime: s.runtime,
            is_private: s.is_private,
            is_privileged: s.is_privileged,
            plan: s.plan,
            with_project_env: s.with_project_env,
            env: s.env,
            ports: s.ports,
            regions: s.regions,
            volumes: s.volumes,
            status: 0,
        },
    }
}

} // verus!
