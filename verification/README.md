# procmand

A daemon that runs a process in its own user, pid, mount, UTS and network
namespaces.

- `src/` is the verified library: the configuration records
  (`common::models`), the OCI runtime configuration and state types
  (`oci::config`, `oci::runtime`), and what the daemon decides about the
  isolated process (`process::isoproc`: user-namespace writes, unshare
  stages, mount-namespace steps, host name; `process::netns`: veth names,
  addresses and netlink requests; `process::paths`: `/proc/<pid>/...` paths).
- `app/` is the daemon: it reads `process.json`, forks, and performs the
  writes, mounts and netlink requests that the library plans.
- `tests/` runs the library on concrete values.
