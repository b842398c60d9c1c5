# safeexec

A small Linux sandbox runtime: it runs one program in fresh PID, mount, UTS,
user and network namespaces, inside a cgroup v2 slice that caps its memory,
CPU and number of tasks, and narrates what happens in an "execution theater".

The crate is split in two:

- `src/` is the library, verified with Verus. It holds every decision of the
  runtime, each with a contract: reading time and memory limits, the paths and
  values of the slice's control files and the reading of their contents, the
  plans of filesystem operations that build the sandbox's minimal root, the
  identity maps of its user namespace, the order of the parent's and the
  child's launch steps and what a failed step ends in, and the narrative of
  each telemetry event. `src/laws.rs` states and proves what holds of these
  for every input.
- `app/` is the program around it: option parsing, the system calls, file
  and pipe I/O, and the copies of the library's types that carry the derives
  of `clap`, `serde` and `thiserror`.

`tests/` exercises the library on concrete values.
