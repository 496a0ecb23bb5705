use pyrite_cli::rpc::{
    active_deployment_status, join_spaces, normalize_selection, owner_label,
    select_service_query, to_upsert_request, ActiveDeployment, DeployManifest, ManifestService,
    ServiceQuery,
};
use pyrite_cli::templates::{
    next_step, options_url, setup_templates, vars_url, TemplateStep, Templates,
};
use pyrite_cli::vars::{resolve_input_answer, After, TemplateVars};

#[test]
fn template_names_and_text() {
    assert_eq!(Templates::Dart.get_name(), "dart");
    let tmpl = Templates::Dart.get_template();
    assert!(tmpl.contains("ARG NAME={{NAME}}"));
    assert!(tmpl.contains("FROM dart:stable AS build"));
    assert!(tmpl.contains("CMD [\"/app/bin/app\"]"));
}

#[test]
fn setup_templates_registers_the_dart_template() {
    let mut registry = handlebars::Handlebars::new();
    setup_templates(&mut registry).unwrap();
    assert!(registry.get_template("dart").is_some());
    let out = registry
        .render("dart", &std::collections::BTreeMap::from([("NAME", "app")]))
        .unwrap();
    assert!(out.contains("ARG NAME=app"));
}

#[test]
fn workflow_urls() {
    assert_eq!(
        options_url(),
        "https://pyritecloud.github.io/workflows/templates/options.json"
    );
    assert_eq!(
        vars_url("/templates/dart"),
        "https://pyritecloud.github.io/workflows/templates/dart/vars.json"
    );
}

#[test]
fn next_step_follows_after_or_names_the_file() {
    let vars = TemplateVars {
        name: None,
        questions: Vec::new(),
        after: Some(After::new("/templates/{{lang}}".to_owned())),
    };
    match next_step("/templates", vars) {
        TemplateStep::Goto(g) => assert_eq!(g, "/templates/{{lang}}"),
        _ => panic!("an `after` target continues the flow"),
    }

    let vars = TemplateVars { name: None, questions: Vec::new(), after: None };
    match next_step("/templates/dart", vars) {
        TemplateStep::File(u) => assert_eq!(
            u,
            "https://pyritecloud.github.io/workflows/templates/dart/Dockerfile"
        ),
        _ => panic!("without `after` the file is fetched"),
    }

    let vars = TemplateVars {
        name: Some("custom.file".to_owned()),
        questions: Vec::new(),
        after: None,
    };
    match next_step("/templates/dart", vars) {
        TemplateStep::File(u) => assert_eq!(
            u,
            "https://pyritecloud.github.io/workflows/templates/dart/custom.file"
        ),
        _ => panic!("the sheet's own file name wins"),
    }
}

#[test]
fn input_answers_fall_back_to_the_default() {
    assert_eq!(
        resolve_input_answer(Some("typed".to_owned()), Some("default".to_owned())),
        Some("typed".to_owned())
    );
    assert_eq!(
        resolve_input_answer(None, Some("default".to_owned())),
        Some("default".to_owned())
    );
    assert_eq!(resolve_input_answer(None, None), None);
}

#[test]
fn service_query_prefers_the_project() {
    assert_eq!(
        select_service_query(Some("t".to_owned()), Some("p".to_owned())),
        ServiceQuery::ByProject("p".to_owned())
    );
    assert_eq!(
        select_service_query(Some("t".to_owned()), None),
        ServiceQuery::ByTeam("t".to_owned())
    );
    assert_eq!(select_service_query(None, None), ServiceQuery::All);
}

#[test]
fn empty_selection_means_no_filter() {
    assert_eq!(normalize_selection(String::new()), None);
    assert_eq!(normalize_selection("id-1".to_owned()), Some("id-1".to_owned()));
}

#[test]
fn owner_label_prefers_the_meta_email() {
    assert_eq!(
        owner_label("uid-7".to_owned(), Some("owner@x".to_owned())),
        "owner@x"
    );
    assert_eq!(owner_label("uid-7".to_owned(), None), "uid-7");
}

#[test]
fn active_deployment_contributes_its_status() {
    assert_eq!(
        active_deployment_status(Some(ActiveDeployment::Docker("RUNNING".to_owned()))),
        Some("RUNNING".to_owned())
    );
    assert_eq!(
        active_deployment_status(Some(ActiveDeployment::Postgres("STOPPED".to_owned()))),
        Some("STOPPED".to_owned())
    );
    assert_eq!(active_deployment_status(None), None);
}

#[test]
fn join_spaces_joins_without_edges() {
    assert_eq!(join_spaces(&vec![]), "");
    assert_eq!(join_spaces(&vec!["one".to_owned()]), "one");
    assert_eq!(
        join_spaces(&vec!["a".to_owned(), "b".to_owned(), "c".to_owned()]),
        "a b c"
    );
}

#[test]
fn upsert_request_carries_the_first_service_over() {
    let manifest = DeployManifest {
        project_id: "proj-1".to_owned(),
        services: vec![ManifestService {
            name: "api".to_owned(),
            service_type: "docker".to_owned(),
            image: "ghcr.io/x/api:1".to_owned(),
            plan: "small".to_owned(),
            runtime: "linux/amd64".to_owned(),
            command: Some("serve".to_owned()),
            args: Some(vec!["--port".to_owned(), "8080".to_owned()]),
            regions: Some(vec!["eu-west".to_owned()]),
            ports: Some(vec![8080]),
            volumes: None,
            env: Some(vec![("MODE".to_owned(), "prod".to_owned())]),
            with_project_env: Some(true),
            registry_id: None,
            is_private: Some(false),
            is_privileged: None,
        }],
    };
    let req = to_upsert_request(manifest);
    assert_eq!(req.name, "api");
    assert_eq!(req.service_type, "docker");
    assert_eq!(req.project_id, "proj-1");
    assert_eq!(req.docker.image, "ghcr.io/x/api:1");
    assert_eq!(req.docker.args, Some("--port 8080".to_owned()));
    assert_eq!(req.docker.command, Some("serve".to_owned()));
    assert_eq!(req.docker.plan, "small");
    assert_eq!(req.docker.runtime, "linux/amd64");
    assert_eq!(req.docker.regions, Some(vec!["eu-west".to_owned()]));
    assert_eq!(req.docker.ports, Some(vec![8080]));
    assert_eq!(req.docker.volumes, None);
    assert_eq!(req.docker.env, Some(vec![("MODE".to_owned(), "prod".to_owned())]));
    assert_eq!(req.docker.with_project_env, Some(true));
    assert_eq!(req.docker.is_private, Some(false));
    assert_eq!(req.docker.is_privileged, None);
    assert_eq!(req.docker.status, 0);
}
