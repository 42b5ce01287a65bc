use procmand::common::models::{ContainerStatus, Image, Job, ProcessConfig};
use std::collections::HashMap;

#[test]
fn status_text_of_each_variant() {
    assert_eq!(ContainerStatus::Creating.to_string(), "creating");
    assert_eq!(ContainerStatus::Created.to_string(), "created");
    assert_eq!(ContainerStatus::Running.to_string(), "running");
    assert_eq!(ContainerStatus::Stopped(0).to_string(), "stopped");
}

#[test]
fn stopped_text_ignores_exit_code() {
    assert_eq!(ContainerStatus::Stopped(-9).to_string(), ContainerStatus::Stopped(137).to_string());
    assert_ne!(ContainerStatus::Running.to_string(), ContainerStatus::Stopped(0).to_string());
}

#[test]
fn process_config_holds_its_fields() {
    let mut env = HashMap::new();
    env.insert("PATH".to_string(), "/bin".to_string());
    let cfg = ProcessConfig {
        id: "p1".to_string(),
        name: "web".to_string(),
        pid: 7,
        context_dir: "/srv/web".to_string(),
        image: Image {
            id: "i1".to_string(),
            name: "alpine".to_string(),
            context_temp_dir: "/tmp/alpine".to_string(),
            imgpath: "/img/alpine".to_string(),
            tag: "latest".to_string(),
            created: "2024-01-01".to_string(),
        },
        job: Job { name: "serve".to_string(), command: vec!["/bin/sh".to_string()] },
        env,
    };
    let copy = cfg.clone();
    assert_eq!(copy.context_dir, "/srv/web");
    assert_eq!(copy.env.get("PATH").map(|s| s.as_str()), Some("/bin"));
    assert_eq!(copy.job.command, vec!["/bin/sh".to_string()]);
}
