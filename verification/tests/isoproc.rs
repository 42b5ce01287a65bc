use procmand::common::models::{Image, Job, ProcessConfig};
use procmand::oci::config::LinuxNamespaceType;
use procmand::process::isoproc::{
    child_namespaces, grandchild_namespaces, id_map_line, mntns_plan, userns_writes, uts_hostname,
    MountFlags, MountStep, ProcWrite,
};
use std::collections::HashMap;

fn config(context_dir: &str) -> ProcessConfig {
    ProcessConfig {
        id: "p1".to_string(),
        name: "web".to_string(),
        pid: 1,
        context_dir: context_dir.to_string(),
        image: Image {
            id: String::new(),
            name: String::new(),
            context_temp_dir: String::new(),
            imgpath: String::new(),
            tag: String::new(),
            created: String::new(),
        },
        job: Job { name: String::new(), command: Vec::new() },
        env: HashMap::new(),
    }
}

#[test]
fn id_map_line_format() {
    assert_eq!(id_map_line(0, 1000, 1), "0 1000 1\n");
    assert_eq!(id_map_line(0, 100000, 65536), "0 100000 65536\n");
}

#[test]
fn userns_writes_for_pid() {
    let writes = userns_writes(4321);
    assert_eq!(
        writes,
        vec![
            ProcWrite { path: "/proc/4321/uid_map".to_string(), contents: "0 1000 1\n".to_string() },
            ProcWrite { path: "/proc/4321/setgroups".to_string(), contents: "deny".to_string() },
            ProcWrite { path: "/proc/4321/gid_map".to_string(), contents: "0 1000 1\n".to_string() },
        ]
    );
}

#[test]
fn setgroups_denied_before_gid_map_written() {
    let writes = userns_writes(77);
    let setgroups = writes.iter().position(|w| w.path.ends_with("/setgroups")).unwrap();
    let gid_map = writes.iter().position(|w| w.path.ends_with("/gid_map")).unwrap();
    assert!(setgroups < gid_map);
    assert_eq!(writes[setgroups].contents, "deny");
}

#[test]
fn namespace_stages() {
    assert_eq!(child_namespaces(), vec![LinuxNamespaceType::User, LinuxNamespaceType::Pid]);
    assert_eq!(
        grandchild_namespaces(),
        vec![LinuxNamespaceType::Mount, LinuxNamespaceType::Uts, LinuxNamespaceType::Network]
    );
    for k in child_namespaces() {
        assert!(!grandchild_namespaces().contains(&k));
    }
}

#[test]
fn hostname_is_isoproc() {
    assert_eq!(uts_hostname(), "isoproc");
}

#[test]
fn mntns_plan_steps() {
    let plan = mntns_plan(&config("/srv/web"));
    let s = |x: &str| x.to_string();
    let none = MountFlags { bind: false, rec: false, private: false };
    assert_eq!(
        plan,
        vec![
            MountStep::SetMode { path: s("/srv/web/rootfs"), mode: 0o777 },
            MountStep::Mount {
                source: None,
                target: s("/"),
                fstype: None,
                flags: MountFlags { bind: false, rec: true, private: true },
            },
            MountStep::Mount {
                source: Some(s("/srv/web/rootfs")),
                target: s("/srv/web/rootfs"),
                fstype: Some(s("ext4")),
                flags: MountFlags { bind: true, rec: false, private: false },
            },
            MountStep::RemoveDirIfExists { path: s("/srv/web/rootfs/.put_old") },
            MountStep::CreateDir { path: s("/srv/web/rootfs/.put_old") },
            MountStep::SetMode { path: s("/srv/web/rootfs/.put_old"), mode: 0o777 },
            MountStep::PivotRoot {
                new_root: s("/srv/web/rootfs"),
                put_old: s("/srv/web/rootfs/.put_old"),
            },
            MountStep::ChangeDir { path: s("/") },
            MountStep::RemoveDirIfExists { path: s("/proc") },
            MountStep::CreateDir { path: s("/proc") },
            MountStep::SetMode { path: s("/proc"), mode: 0o777 },
            MountStep::Mount {
                source: Some(s("proc")),
                target: s("/proc"),
                fstype: Some(s("proc")),
                flags: none,
            },
            MountStep::Unmount { target: s("/.put_old"), detach: true },
            MountStep::RemoveDir { path: s("/.put_old") },
        ]
    );
}

#[test]
fn put_old_lies_under_new_root() {
    let plan = mntns_plan(&config("ctx"));
    match &plan[6] {
        MountStep::PivotRoot { new_root, put_old } => {
            assert!(put_old.starts_with(new_root.as_str()));
            assert_eq!(&put_old[new_root.len()..], "/.put_old");
        }
        other => panic!("unexpected step {:?}", other),
    }
}
