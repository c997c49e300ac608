//! Runtime support for command-line tools: a process-wide program-name
//! store with consistent snapshots, and composition of diagnostic lines
//! (`name: [path: ]text\n`) for warnings and fatal errors.

pub mod err;
pub mod progname;
