use komodo_logic::gitops_stack::StackState;
use komodo_logic::stack_read::{
    check_inspection_host, common_extra_args, filter_update_available, redact_env_vars,
    redact_stack_container_inspect_response, redact_stack_display_secrets, redact_stack_read_response,
    redact_stack_swarm_service_inspect_response, redacts_remote_contents, service_container_name,
    service_swarm_service_name, stacks_summary, swarm_log_service, swarm_search_service, ContainerConfig,
    FileContents, PermissionLevel, ServiceSpec, StackFiles, StackHost, StackInspection, StackListItem,
    StackServiceStatus, StackServiceUpdate, StackStatusEntry, TaskSpec, TaskSpecContainerSpec,
};

fn sample_stack(secret: &str) -> StackFiles {
    StackFiles {
        deployed_config: Some(format!("PASSWORD={secret}\nPUBLIC=value")),
        deployed_contents: None,
        remote_contents: Some(vec![FileContents {
            path: "compose.yaml".to_string(),
            contents: format!("PASSWORD={secret}\nPUBLIC=value"),
        }]),
    }
}

#[test]
fn redacts_full_stack_read_payloads_for_read_only_views() {
    let mut stack = sample_stack("abc$def");
    redact_stack_read_response(&mut stack, &[("abc$def".to_string(), "[[SECRET]]".to_string())], true);

    let deployed_config = stack.deployed_config.unwrap();
    assert!(!deployed_config.contains("abc$def"));
    assert!(deployed_config.contains("[[SECRET]]"));

    let remote_contents = stack.remote_contents.unwrap().pop().unwrap().contents;
    assert!(!remote_contents.contains("abc$def"));
    assert!(remote_contents.contains("[[SECRET]]"));
}

#[test]
fn keeps_remote_contents_raw_for_writable_stack_views() {
    let mut stack = sample_stack("abc$def");
    redact_stack_read_response(&mut stack, &[("abc$def".to_string(), "[[SECRET]]".to_string())], false);

    let deployed_config = stack.deployed_config.unwrap();
    assert!(!deployed_config.contains("abc$def"));
    assert!(deployed_config.contains("[[SECRET]]"));

    let remote_contents = stack.remote_contents.unwrap().pop().unwrap().contents;
    assert!(remote_contents.contains("abc$def"));
    assert!(!remote_contents.contains("[[SECRET]]"));
}

#[test]
fn redacts_container_inspect_config_env_for_stack_secret() {
    let secret = "abc$def;$(whoami)'";
    let mut config = Some(ContainerConfig {
        env: vec![
            format!("PASSWORD={secret}"),
            format!("COMBINED=prefix-{secret}-suffix"),
            "PUBLIC=value".to_string(),
        ],
    });

    redact_stack_container_inspect_response(&mut config, &[(secret.to_string(), "[[PASSWORD]]".to_string())]);

    let env = &config.as_ref().unwrap().env;
    assert!(!env.iter().any(|entry| entry.contains(secret)));
    assert!(env.contains(&"PASSWORD=<[[PASSWORD]]>".to_string()));
    assert!(env.contains(&"COMBINED=prefix-<[[PASSWORD]]>-suffix".to_string()));
    assert!(env.contains(&"PUBLIC=value".to_string()));
}

#[test]
fn redacts_swarm_service_inspect_env_for_stack_secret() {
    let secret = "abc$def;$(whoami)'";
    let mut spec = Some(ServiceSpec {
        task_template: Some(TaskSpec {
            container_spec: Some(TaskSpecContainerSpec {
                env: Some(vec![
                    format!("PASSWORD={secret}"),
                    format!("COMBINED=prefix-{secret}-suffix"),
                    "PUBLIC=value".to_string(),
                ]),
            }),
        }),
    });

    redact_stack_swarm_service_inspect_response(&mut spec, &[(secret.to_string(), "[[PASSWORD]]".to_string())]);

    let env = spec
        .as_ref()
        .unwrap()
        .task_template
        .as_ref()
        .unwrap()
        .container_spec
        .as_ref()
        .unwrap()
        .env
        .as_ref()
        .unwrap();
    assert!(!env.iter().any(|entry| entry.contains(secret)));
    assert!(env.contains(&"PASSWORD=<[[PASSWORD]]>".to_string()));
    assert!(env.contains(&"COMBINED=prefix-<[[PASSWORD]]>-suffix".to_string()));
    assert!(env.contains(&"PUBLIC=value".to_string()));
}

#[test]
fn missing_config_or_env_is_left_alone() {
    let mut none: Option<ContainerConfig> = None;
    redact_stack_container_inspect_response(&mut none, &[("x".to_string(), "X".to_string())]);
    assert!(none.is_none());
    let mut spec = Some(ServiceSpec { task_template: Some(TaskSpec { container_spec: None }) });
    redact_stack_swarm_service_inspect_response(&mut spec, &[("x".to_string(), "X".to_string())]);
    assert!(spec.unwrap().task_template.unwrap().container_spec.is_none());
}

#[test]
fn display_secrets_are_replaced_pair_by_pair() {
    assert_eq!(
        redact_stack_display_secrets("a=one b=two", &[("one".into(), "A".into()), ("two".into(), "B".into())]),
        "a=<A> b=<B>"
    );
    let mut env = vec!["K=one".to_string(), "plain".to_string()];
    redact_env_vars(&mut env, &[("one".into(), "ONE".into())]);
    assert_eq!(env, vec!["K=<ONE>".to_string(), "plain".to_string()]);
    let mut files = StackFiles {
        deployed_config: None,
        deployed_contents: Some(vec![FileContents { path: "a.yaml".into(), contents: "one".into() }]),
        remote_contents: None,
    };
    redact_stack_read_response(&mut files, &[("one".into(), "S".into())], true);
    let deployed = files.deployed_contents.unwrap();
    assert_eq!(deployed[0].path, "a.yaml");
    assert_eq!(deployed[0].contents, "<S>");
    assert!(files.deployed_config.is_none());
}

#[test]
fn only_writers_see_remote_files_raw() {
    assert!(redacts_remote_contents(PermissionLevel::NoAccess));
    assert!(redacts_remote_contents(PermissionLevel::Read));
    assert!(redacts_remote_contents(PermissionLevel::Execute));
    assert!(!redacts_remote_contents(PermissionLevel::Write));
}

#[test]
fn stacks_summary_counts_by_state() {
    let e = |state, template| StackStatusEntry { state, template };
    let summary = stacks_summary(&vec![
        e(StackState::Running, false),
        e(StackState::Stopped, false),
        e(StackState::Paused, false),
        e(StackState::Down, false),
        e(StackState::Unknown, false),
        e(StackState::Unknown, true),
        e(StackState::Restarting, false),
        e(StackState::Unhealthy, false),
    ]);
    assert_eq!(summary.total, 8);
    assert_eq!(summary.running, 1);
    assert_eq!(summary.stopped, 2);
    assert_eq!(summary.down, 1);
    assert_eq!(summary.unknown, 1);
    assert_eq!(summary.unhealthy, 2);
}

#[test]
fn update_available_filter() {
    let item = |id: &str, flags: &[bool]| StackListItem {
        id: id.into(),
        name: id.into(),
        services: flags
            .iter()
            .map(|f| StackServiceUpdate { service: "s".into(), update_available: *f })
            .collect(),
    };
    let stacks = vec![item("a", &[false, true]), item("b", &[false]), item("c", &[])];
    let all = filter_update_available(false, vec![item("a", &[]), item("b", &[])]);
    assert_eq!(all.len(), 2);
    let some = filter_update_available(true, stacks);
    assert_eq!(some.len(), 1);
    assert_eq!(some[0].id, "a");
}

#[test]
fn common_extra_args_are_sorted_and_unique() {
    let lists = vec![
        vec!["--pull".to_string(), "--build".to_string()],
        vec![],
        vec!["--build".to_string(), "--force-recreate".to_string()],
    ];
    assert_eq!(
        common_extra_args(&lists),
        vec!["--build".to_string(), "--force-recreate".to_string(), "--pull".to_string()]
    );
}

#[test]
fn service_lookup_uses_first_match() {
    let s = |service: &str, container: Option<&str>, swarm: Option<&str>| StackServiceStatus {
        service: service.into(),
        container_name: container.map(String::from),
        swarm_service_name: swarm.map(String::from),
    };
    let services = vec![s("web", Some("proj-web-1"), None), s("db", None, Some("proj_db")), s("web", Some("later"), None)];
    assert_eq!(service_container_name(&services, &"web".to_string()).ok().unwrap(), "proj-web-1");
    assert_eq!(service_swarm_service_name(&services, &"db".to_string()).ok().unwrap(), "proj_db");
    let err = service_container_name(&services, &"db".to_string()).err().unwrap();
    assert_eq!(err.error.message(), "No service found matching 'db'. Was the stack last deployed manually?");
    assert!(service_container_name(&services, &"cache".to_string()).is_err());
}

#[test]
fn swarm_log_services() {
    let services = vec!["web".to_string(), "db".to_string()];
    assert_eq!(swarm_log_service(&"proj".to_string(), &services).unwrap(), "proj_db");
    assert_eq!(swarm_search_service(&services).unwrap(), "db");
    let e = swarm_log_service(&"proj".to_string(), &vec![]).unwrap_err();
    assert_eq!(e.message(), "Must pass single service for Swarm mode Stack logs");
}

#[test]
fn inspections_need_the_matching_host() {
    assert!(check_inspection_host(StackInspection::Container, StackHost::Server).is_ok());
    let e = check_inspection_host(StackInspection::Container, StackHost::Swarm).err().unwrap();
    assert_eq!(e.status, 400);
    assert_eq!(e.error.message(), "InspectStackContainer should not be called for Stack in Swarm Mode");
    assert!(check_inspection_host(StackInspection::SwarmInfo, StackHost::Swarm).is_ok());
    assert!(check_inspection_host(StackInspection::SwarmService, StackHost::Server).is_err());
}
