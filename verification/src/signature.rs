//! The signature table: for each system call number of x86-64 Linux, the
//! call's name and how each of its six argument slots is decoded.
//!
//! An entry lists the arguments of the call's C prototype. A variadic tail,
//! such as the creation mode of `open`, is not part of the signature. Slots
//! past the last argument are [`ArgKind::Absent`].
use vstd::prelude::*;

verus! {

/// How the decoder treats one argument slot of a system call.
#[derive(Clone, Copy, Debug, PartialEq, Eq, Structural)]
pub enum ArgKind {
    /// The call has no argument in this slot.
    Absent,
    /// A scalar, shown in decimal.
    Integer,
    /// The address of a NUL-terminated string in the tracee's memory.
    String,
    /// Any other pointer, shown as an opaque address.
    Address,
}

/// The name of a system call and the kinds of its six argument slots.
#[derive(Clone, Copy, Debug)]
pub struct SyscallSignature {
    pub name: &'static str,
    pub arg_kinds: [ArgKind; 6],
}

/// The number of argument slots of the calling convention.
pub const ARG_SLOTS: usize = 6;

/// The number of entries in the table; the valid system call numbers are
/// those below it.
pub const SYSCALL_COUNT: u64 = 335;

/// The names of the system calls, indexed by number.
pub const SYSCALL_NAMES: [&'static str; 335] = [
    "read", "write", "open", "close", "stat", "fstat", "lstat", "poll", "lseek", "mmap",
    "mprotect", "munmap", "brk", "rt_sigaction", "rt_sigprocmask", "rt_sigreturn", "ioctl",
    "pread64", "pwrite64", "readv", "writev", "access", "pipe", "select", "sched_yield",
    "mremap", "msync", "mincore", "madvise", "shmget", "shmat", "shmctl", "dup", "dup2",
    "pause", "nanosleep", "getitimer", "alarm", "setitimer", "getpid", "sendfile", "socket",
    "connect", "accept", "sendto", "recvfrom", "sendmsg", "recvmsg", "shutdown", "bind",
    "listen", "getsockname", "getpeername", "socketpair", "setsockopt", "getsockopt", "clone",
    "fork", "vfork", "execve", "exit", "wait4", "kill", "uname", "semget", "semop", "semctl",
    "shmdt", "msgget", "msgsnd", "msgrcv", "msgctl", "fcntl", "flock", "fsync", "fdatasync",
    "truncate", "ftruncate", "getdents", "getcwd", "chdir", "fchdir", "rename", "mkdir",
    "rmdir", "creat", "link", "unlink", "symlink", "readlink", "chmod", "fchmod", "chown",
    "fchown", "lchown", "umask", "gettimeofday", "getrlimit", "getrusage", "sysinfo", "times",
    "ptrace", "getuid", "syslog", "getgid", "setuid", "setgid", "geteuid", "getegid", "setpgid",
    "getppid", "getpgrp", "setsid", "setreuid", "setregid", "getgroups", "setgroups",
    "setresuid", "getresuid", "setresgid", "getresgid", "getpgid", "setfsuid", "setfsgid",
    "getsid", "capget", "capset", "rt_sigpending", "rt_sigtimedwait", "rt_sigqueueinfo",
    "rt_sigsuspend", "sigaltstack", "utime", "mknod", "uselib", "personality", "ustat",
    "statfs", "fstatfs", "sysfs", "getpriority", "setpriority", "sched_setparam",
    "sched_getparam", "sched_setscheduler", "sched_getscheduler", "sched_get_priority_max",
    "sched_get_priority_min", "sched_rr_get_interval", "mlock", "munlock", "mlockall",
    "munlockall", "vhangup", "modify_ldt", "pivot_root", "_sysctl", "prctl", "arch_prctl",
    "adjtimex", "setrlimit", "chroot", "sync", "acct", "settimeofday", "mount", "umount2",
    "swapon", "swapoff", "reboot", "sethostname", "setdomainname", "iopl", "ioperm",
    "create_module", "init_module", "delete_module", "get_kernel_syms", "query_module",
    "quotactl", "nfsservctl", "getpmsg", "putpmsg", "afs_syscall", "tuxcall", "security",
    "gettid", "readahead", "setxattr", "lsetxattr", "fsetxattr", "getxattr", "lgetxattr",
    "fgetxattr", "listxattr", "llistxattr", "flistxattr", "removexattr", "lremovexattr",
    "fremovexattr", "tkill", "time", "futex", "sched_setaffinity", "sched_getaffinity",
    "set_thread_area", "io_setup", "io_destroy", "io_getevents", "io_submit", "io_cancel",
    "get_thread_area", "lookup_dcookie", "epoll_create", "epoll_ctl_old", "epoll_wait_old",
    "remap_file_pages", "getdents64", "set_tid_address", "restart_syscall", "semtimedop",
    "fadvise64", "timer_create", "timer_settime", "timer_gettime", "timer_getoverrun",
    "timer_delete", "clock_settime", "clock_gettime", "clock_getres", "clock_nanosleep",
    "exit_group", "epoll_wait", "epoll_ctl", "tgkill", "utimes", "vserver", "mbind",
    "set_mempolicy", "get_mempolicy", "mq_open", "mq_unlink", "mq_timedsend", "mq_timedreceive",
    "mq_notify", "mq_getsetattr", "kexec_load", "waitid", "add_key", "request_key", "keyctl",
    "ioprio_set", "ioprio_get", "inotify_init", "inotify_add_watch", "inotify_rm_watch",
    "migrate_pages", "openat", "mkdirat", "mknodat", "fchownat", "futimesat", "newfstatat",
    "unlinkat", "renameat", "linkat", "symlinkat", "readlinkat", "fchmodat", "faccessat",
    "pselect6", "ppoll", "unshare", "set_robust_list", "get_robust_list", "splice", "tee",
    "sync_file_range", "vmsplice", "move_pages", "utimensat", "epoll_pwait", "signalfd",
    "timerfd_create", "eventfd", "fallocate", "timerfd_settime", "timerfd_gettime", "accept4",
    "signalfd4", "eventfd2", "epoll_create1", "dup3", "pipe2", "inotify_init1", "preadv",
    "pwritev", "rt_tgsigqueueinfo", "perf_event_open", "recvmmsg", "fanotify_init",
    "fanotify_mark", "prlimit64", "name_to_handle_at", "open_by_handle_at", "clock_adjtime",
    "syncfs", "sendmmsg", "setns", "getcpu", "process_vm_readv", "process_vm_writev", "kcmp",
    "finit_module", "sched_setattr", "sched_getattr", "renameat2", "seccomp", "getrandom",
    "memfd_create", "kexec_file_load", "bpf", "execveat", "userfaultfd", "membarrier", "mlock2",
    "copy_file_range", "preadv2", "pwritev2", "pkey_mprotect", "pkey_alloc", "pkey_free",
    "statx", "io_pgetevents", "rseq",
];

/// The argument kinds of the system calls, indexed by number.
pub const SYSCALL_ARG_KINDS: [[ArgKind; 6]; 335] = [
    // 0 read
    [ArgKind::Integer, ArgKind::Address, ArgKind::Integer, ArgKind::Absent, ArgKind::Absent, ArgKind::Absent],
    // 1 write
    [ArgKind::Integer, ArgKind::Address, ArgKind::Integer, ArgKind::Absent, ArgKind::Absent, ArgKind::Absent],
    // 2 open
    [ArgKind::String, ArgKind::Integer, ArgKind::Absent, ArgKind::Absent, ArgKind::Absent, ArgKind::Absent],
    // 3 close
    [ArgKind::Integer, ArgKind::Absent, ArgKind::Absent, ArgKind::Absent, ArgKind::Absent, ArgKind::Absent],
    // 4 stat
    [ArgKind::String, ArgKind::Address, ArgKind::Absent, ArgKind::Absent, ArgKind::Absent, ArgKind::Absent],
    // 5 fstat
    [ArgKind::Integer, ArgKind::Address, ArgKind::Absent, ArgKind::Absent, ArgKind::Absent, ArgKind::Absent],
    // 6 lstat
    [ArgKind::String, ArgKind::Address, ArgKind::Absent, ArgKind::Absent, ArgKind::Absent, ArgKind::Absent],
    // 7 poll
    [ArgKind::Address, ArgKind::Integer, ArgKind::Integer, ArgKind::Absent, ArgKind::Absent, ArgKind::Absent],
    // 8 lseek
    [ArgKind::Integer, ArgKind::Integer, ArgKind::Integer, ArgKind::Absent, ArgKind::Absent, ArgKind::Absent],
    // 9 mmap
    [ArgKind::Address, ArgKind::Integer, ArgKind::Integer, ArgKind::Integer, ArgKind::Integer, ArgKind::Integer],
    // 10 mprotect
    [ArgKind::Address, ArgKind::Integer, ArgKind::Integer, ArgKind::Absent, ArgKind::Absent, ArgKind::Absent],
    // 11 munmap
    [ArgKind::Address, ArgKind::Integer, ArgKind::Absent, ArgKind::Absent, ArgKind::Absent, ArgKind::Absent],
    // 12 brk
    [ArgKind::Address, ArgKind::Absent, ArgKind::Absent, ArgKind::Absent, ArgKind::Absent, ArgKind::Absent],
    // 13 rt_sigaction
    [ArgKind::Integer, ArgKind::Address, ArgKind::Address, ArgKind::Integer, ArgKind::Absent, ArgKind::Absent],
    // 14 rt_sigprocmask
    [ArgKind::Integer, ArgKind::Address, ArgKind::Address, ArgKind::Integer, ArgKind::Absent, ArgKind::Absent],
    // 15 rt_sigreturn
    [ArgKind::Absent, ArgKind::Absent, ArgKind::Absent, ArgKind::Absent, ArgKind::Absent, ArgKind::Absent],
    // 16 ioctl
    [ArgKind::Integer, ArgKind::Integer, ArgKind::Absent, ArgKind::Absent, ArgKind::Absent, ArgKind::Absent],
    // 17 pread64
    [ArgKind::Integer, ArgKind::Address, ArgKind::Integer, ArgKind::Integer, ArgKind::Absent, ArgKind::Absent],
    // 18 pwrite64
    [ArgKind::Integer, ArgKind::Address, ArgKind::Integer, ArgKind::Integer, ArgKind::Absent, ArgKind::Absent],
    // 19 readv
    [ArgKind::Integer, ArgKind::Address, ArgKind::Integer, ArgKind::Absent, ArgKind::Absent, ArgKind::Absent],
    // 20 writev
    [ArgKind::Integer, ArgKind::Address, ArgKind::Integer, ArgKind::Absent, ArgKind::Absent, ArgKind::Absent],
    // 21 access
    [ArgKind::String, ArgKind::Integer, ArgKind::Absent, ArgKind::Absent, ArgKind::Absent, ArgKind::Absent],
    // 22 pipe
    [ArgKind::Address, ArgKind::Absent, ArgKind::Absent, ArgKind::Absent, ArgKind::Absent, ArgKind::Absent],
    // 23 select
    [ArgKind::Integer, ArgKind::Address, ArgKind::Address, ArgKind::Address, ArgKind::Address, ArgKind::Absent],
    // 24 sched_yield
    [ArgKind::Absent, ArgKind::Absent, ArgKind::Absent, ArgKind::Absent, ArgKind::Absent, ArgKind::Absent],
    // 25 mremap
    [ArgKind::Address, ArgKind::Integer, ArgKind::Integer, ArgKind::Integer, ArgKind::Absent, ArgKind::Absent],
    // 26 msync
    [ArgKind::Address, ArgKind::Integer, ArgKind::Integer, ArgKind::Absent, ArgKind::Absent, ArgKind::Absent],
    // 27 mincore
    [ArgKind::Address, ArgKind::Integer, ArgKind::Address, ArgKind::Absent, ArgKind::Absent, ArgKind::Absent],
    // 28 madvise
    [ArgKind::Address, ArgKind::Integer, ArgKind::Integer, ArgKind::Absent, ArgKind::Absent, ArgKind::Absent],
    // 29 shmget
    [ArgKind::Integer, ArgKind::Integer, ArgKind::Integer, ArgKind::Absent, ArgKind::Absent, ArgKind::Absent],
    // 30 shmat
    [ArgKind::Integer, ArgKind::Address, ArgKind::Integer, ArgKind::Absent, ArgKind::Absent, ArgKind::Absent],
    // 31 shmctl
    [ArgKind::Integer, ArgKind::Integer, ArgKind::Address, ArgKind::Absent, ArgKind::Absent, ArgKind::Absent],
    // 32 dup
    [ArgKind::Integer, ArgKind::Absent, ArgKind::Absent, ArgKind::Absent, ArgKind::Absent, ArgKind::Absent],
    // 33 dup2
    [ArgKind::Integer, ArgKind::Integer, ArgKind::Absent, ArgKind::Absent, ArgKind::Absent, ArgKind::Absent],
    // 34 pause
    [ArgKind::Absent, ArgKind::Absent, ArgKind::Absent, ArgKind::Absent, ArgKind::Absent, ArgKind::Absent],
    // 35 nanosleep
    [ArgKind::Address, ArgKind::Address, ArgKind::Absent, ArgKind::Absent, ArgKind::Absent, ArgKind::Absent],
    // 36 getitimer
    [ArgKind::Integer, ArgKind::Address, ArgKind::Absent, ArgKind::Absent, ArgKind::Absent, ArgKind::Absent],
    // 37 alarm
    [ArgKind::Integer, ArgKind::Absent, ArgKind::Absent, ArgKind::Absent, ArgKind::Absent, ArgKind::Absent],
    // 38 setitimer
    [ArgKind::Integer, ArgKind::Address, ArgKind::Address, ArgKind::Absent, ArgKind::Absent, ArgKind::Absent],
    // 39 getpid
    [ArgKind::Absent, ArgKind::Absent, ArgKind::Absent, ArgKind::Absent, ArgKind::Absent, ArgKind::Absent],
    // 40 sendfile
    [ArgKind::Integer, ArgKind::Integer, ArgKind::Address, ArgKind::Integer, ArgKind::Absent, ArgKind::Absent],
    // 41 socket
    [ArgKind::Integer, ArgKind::Integer, ArgKind::Integer, ArgKind::Absent, ArgKind::Absent, ArgKind::Absent],
    // 42 connect
    [ArgKind::Integer, ArgKind::Address, ArgKind::Integer, ArgKind::Absent, ArgKind::Absent, ArgKind::Absent],
    // 43 accept
    [ArgKind::Integer, ArgKind::Address, ArgKind::Address, ArgKind::Absent, ArgKind::Absent, ArgKind::Absent],
    // 44 sendto
    [ArgKind::Integer, ArgKind::Address, ArgKind::Integer, ArgKind::Integer, ArgKind::Address, ArgKind::Integer],
    // 45 recvfrom
    [ArgKind::Integer, ArgKind::Address, ArgKind::Integer, ArgKind::Integer, ArgKind::Address, ArgKind::Address],
    // 46 sendmsg
    [ArgKind::Integer, ArgKind::Address, ArgKind::Integer, ArgKind::Absent, ArgKind::Absent, ArgKind::Absent],
    // 47 recvmsg
    [ArgKind::Integer, ArgKind::Address, ArgKind::Integer, ArgKind::Absent, ArgKind::Absent, ArgKind::Absent],
    // 48 shutdown
    [ArgKind::Integer, ArgKind::Integer, ArgKind::Absent, ArgKind::Absent, ArgKind::Absent, ArgKind::Absent],
    // 49 bind
    [ArgKind::Integer, ArgKind::Address, ArgKind::Integer, ArgKind::Absent, ArgKind::Absent, ArgKind::Absent],
    // 50 listen
    [ArgKind::Integer, ArgKind::Integer, ArgKind::Absent, ArgKind::Absent, ArgKind::Absent, ArgKind::Absent],
    // 51 getsockname
    [ArgKind::Integer, ArgKind::Address, ArgKind::Address, ArgKind::Absent, ArgKind::Absent, ArgKind::Absent],
    // 52 getpeername
    [ArgKind::Integer, ArgKind::Address, ArgKind::Address, ArgKind::Absent, ArgKind::Absent, ArgKind::Absent],
    // 53 socketpair
    [ArgKind::Integer, ArgKind::Integer, ArgKind::Integer, ArgKind::Address, ArgKind::Absent, ArgKind::Absent],
    // 54 setsockopt
    [ArgKind::Integer, ArgKind::Integer, ArgKind::Integer, ArgKind::Address, ArgKind::Integer, ArgKind::Absent],
    // 55 getsockopt
    [ArgKind::Integer, ArgKind::Integer, ArgKind::Integer, ArgKind::Address, ArgKind::Address, ArgKind::Absent],
    // 56 clone
    [ArgKind::Integer, ArgKind::Address, ArgKind::Address, ArgKind::Address, ArgKind::Integer, ArgKind::Absent],
    // 57 fork
    [ArgKind::Absent, ArgKind::Absent, ArgKind::Absent, ArgKind::Absent, ArgKind::Absent, ArgKind::Absent],
    // 58 vfork
    [ArgKind::Absent, ArgKind::Absent, ArgKind::Absent, ArgKind::Absent, ArgKind::Absent, ArgKind::Absent],
    // 59 execve
    [ArgKind::String, ArgKind::Address, ArgKind::Address, ArgKind::Absent, ArgKind::Absent, ArgKind::Absent],
    // 60 exit
    [ArgKind::Integer, ArgKind::Absent, ArgKind::Absent, ArgKind::Absent, ArgKind::Absent, ArgKind::Absent],
    // 61 wait4
    [ArgKind::Integer, ArgKind::Address, ArgKind::Integer, ArgKind::Address, ArgKind::Absent, ArgKind::Absent],
    // 62 kill
    [ArgKind::Integer, ArgKind::Integer, ArgKind::Absent, ArgKind::Absent, ArgKind::Absent, ArgKind::Absent],
    // 63 uname
    [ArgKind::Address, ArgKind::Absent, ArgKind::Absent, ArgKind::Absent, ArgKind::Absent, ArgKind::Absent],
    // 64 semget
    [ArgKind::Integer, ArgKind::Integer, ArgKind::Integer, ArgKind::Absent, ArgKind::Absent, ArgKind::Absent],
    // 65 semop
    [ArgKind::Integer, ArgKind::Address, ArgKind::Integer, ArgKind::Absent, ArgKind::Absent, ArgKind::Absent],
    // 66 semctl
    [ArgKind::Integer, ArgKind::Integer, ArgKind::Integer, ArgKind::Absent, ArgKind::Absent, ArgKind::Absent],
    // 67 shmdt
    [ArgKind::Address, ArgKind::Absent, ArgKind::Absent, ArgKind::Absent, ArgKind::Absent, ArgKind::Absent],
    // 68 msgget
    [ArgKind::Integer, ArgKind::Integer, ArgKind::Absent, ArgKind::Absent, ArgKind::Absent, ArgKind::Absent],
    // 69 msgsnd
    [ArgKind::Integer, ArgKind::Address, ArgKind::Integer, ArgKind::Integer, ArgKind::Absent, ArgKind::Absent],
    // 70 msgrcv
    [ArgKind::Integer, ArgKind::Address, ArgKind::Integer, ArgKind::Integer, ArgKind::Integer, ArgKind::Absent],
    // 71 msgctl
    [ArgKind::Integer, ArgKind::Integer, ArgKind::Address, ArgKind::Absent, ArgKind::Absent, ArgKind::Absent],
    // 72 fcntl
    [ArgKind::Integer, ArgKind::Integer, ArgKind::Absent, ArgKind::Absent, ArgKind::Absent, ArgKind::Absent],
    // 73 flock
    [ArgKind::Integer, ArgKind::Integer, ArgKind::Absent, ArgKind::Absent, ArgKind::Absent, ArgKind::Absent],
    // 74 fsync
    [ArgKind::Integer, ArgKind::Absent, ArgKind::Absent, ArgKind::Absent, ArgKind::Absent, ArgKind::Absent],
    // 75 fdatasync
    [ArgKind::Integer, ArgKind::Absent, ArgKind::Absent, ArgKind::Absent, ArgKind::Absent, ArgKind::Absent],
    // 76 truncate
    [ArgKind::String, ArgKind::Integer, ArgKind::Absent, ArgKind::Absent, ArgKind::Absent, ArgKind::Absent],
    // 77 ftruncate
    [ArgKind::Integer, ArgKind::Integer, ArgKind::Absent, ArgKind::Absent, ArgKind::Absent, ArgKind::Absent],
    // 78 getdents
    [ArgKind::Integer, ArgKind::Address, ArgKind::Integer, ArgKind::Absent, ArgKind::Absent, ArgKind::Absent],
    // 79 getcwd
    [ArgKind::Address, ArgKind::Integer, ArgKind::Absent, ArgKind::Absent, ArgKind::Absent, ArgKind::Absent],
    // 80 chdir
    [ArgKind::String, ArgKind::Absent, ArgKind::Absent, ArgKind::Absent, ArgKind::Absent, ArgKind::Absent],
    // 81 fchdir
    [ArgKind::Integer, ArgKind::Absent, ArgKind::Absent, ArgKind::Absent, ArgKind::Absent, ArgKind::Absent],
    // 82 rename
    [ArgKind::String, ArgKind::String, ArgKind::Absent, ArgKind::Absent, ArgKind::Absent, ArgKind::Absent],
    // 83 mkdir
    [ArgKind::String, ArgKind::Integer, ArgKind::Absent, ArgKind::Absent, ArgKind::Absent, ArgKind::Absent],
    // 84 rmdir
    [ArgKind::String, ArgKind::Absent, ArgKind::Absent, ArgKind::Absent, ArgKind::Absent, ArgKind::Absent],
    // 85 creat
    [ArgKind::String, ArgKind::Integer, ArgKind::Absent, ArgKind::Absent, ArgKind::Absent, ArgKind::Absent],
    // 86 link
    [ArgKind::String, ArgKind::String, ArgKind::Absent, ArgKind::Absent, ArgKind::Absent, ArgKind::Absent],
    // 87 unlink
    [ArgKind::String, ArgKind::Absent, ArgKind::Absent, ArgKind::Absent, ArgKind::Absent, ArgKind::Absent],
    // 88 symlink
    [ArgKind::String, ArgKind::String, ArgKind::Absent, ArgKind::Absent, ArgKind::Absent, ArgKind::Absent],
    // 89 readlink
    [ArgKind::String, ArgKind::Address, ArgKind::Integer, ArgKind::Absent, ArgKind::Absent, ArgKind::Absent],
    // 90 chmod
    [ArgKind::String, ArgKind::Integer, ArgKind::Absent, ArgKind::Absent, ArgKind::Absent, ArgKind::Absent],
    // 91 fchmod
    [ArgKind::Integer, ArgKind::Integer, ArgKind::Absent, ArgKind::Absent, ArgKind::Absent, ArgKind::Absent],
    // 92 chown
    [ArgKind::String, ArgKind::Integer, ArgKind::Integer, ArgKind::Absent, ArgKind::Absent, ArgKind::Absent],
    // 93 fchown
    [ArgKind::Integer, ArgKind::Integer, ArgKind::Integer, ArgKind::Absent, ArgKind::Absent, ArgKind::Absent],
    // 94 lchown
    [ArgKind::String, ArgKind::Integer, ArgKind::Integer, ArgKind::Absent, ArgKind::Absent, ArgKind::Absent],
    // 95 umask
    [ArgKind::Integer, ArgKind::Absent, ArgKind::Absent, ArgKind::Absent, ArgKind::Absent, ArgKind::Absent],
    // 96 gettimeofday
    [ArgKind::Address, ArgKind::Address, ArgKind::Absent, ArgKind::Absent, ArgKind::Absent, ArgKind::Absent],
    // 97 getrlimit
    [ArgKind::Integer, ArgKind::Address, ArgKind::Absent, ArgKind::Absent, ArgKind::Absent, ArgKind::Absent],
    // 98 getrusage
    [ArgKind::Integer, ArgKind::Address, ArgKind::Absent, ArgKind::Absent, ArgKind::Absent, ArgKind::Absent],
    // 99 sysinfo
    [ArgKind::Address, ArgKind::Absent, ArgKind::Absent, ArgKind::Absent, ArgKind::Absent, ArgKind::Absent],
    // 100 times
    [ArgKind::Address, ArgKind::Absent, ArgKind::Absent, ArgKind::Absent, ArgKind::Absent, ArgKind::Absent],
    // 101 ptrace
    [ArgKind::Integer, ArgKind::Integer, ArgKind::Address, ArgKind::Address, ArgKind::Absent, ArgKind::Absent],
    // 102 getuid
    [ArgKind::Absent, ArgKind::Absent, ArgKind::Absent, ArgKind::Absent, ArgKind::Absent, ArgKind::Absent],
    // 103 syslog
    [ArgKind::Integer, ArgKind::Address, ArgKind::Integer, ArgKind::Absent, ArgKind::Absent, ArgKind::Absent],
    // 104 getgid
    [ArgKind::Absent, ArgKind::Absent, ArgKind::Absent, ArgKind::Absent, ArgKind::Absent, ArgKind::Absent],
    // 105 setuid
    [ArgKind::Integer, ArgKind::Absent, ArgKind::Absent, ArgKind::Absent, ArgKind::Absent, ArgKind::Absent],
    // 106 setgid
    [ArgKind::Integer, ArgKind::Absent, ArgKind::Absent, ArgKind::Absent, ArgKind::Absent, ArgKind::Absent],
    // 107 geteuid
    [ArgKind::Absent, ArgKind::Absent, ArgKind::Absent, ArgKind::Absent, ArgKind::Absent, ArgKind::Absent],
    // 108 getegid
    [ArgKind::Absent, ArgKind::Absent, ArgKind::Absent, ArgKind::Absent, ArgKind::Absent, ArgKind::Absent],
    // 109 setpgid
    [ArgKind::Integer, ArgKind::Integer, ArgKind::Absent, ArgKind::Absent, ArgKind::Absent, ArgKind::Absent],
    // 110 getppid
    [ArgKind::Absent, ArgKind::Absent, ArgKind::Absent, ArgKind::Absent, ArgKind::Absent, ArgKind::Absent],
    // 111 getpgrp
    [ArgKind::Absent, ArgKind::Absent, ArgKind::Absent, ArgKind::Absent, ArgKind::Absent, ArgKind::Absent],
    // 112 setsid
    [ArgKind::Absent, ArgKind::Absent, ArgKind::Absent, ArgKind::Absent, ArgKind::Absent, ArgKind::Absent],
    // 113 setreuid
    [ArgKind::Integer, ArgKind::Integer, ArgKind::Absent, ArgKind::Absent, ArgKind::Absent, ArgKind::Absent],
    // 114 setregid
    [ArgKind::Integer, ArgKind::Integer, ArgKind::Absent, ArgKind::Absent, ArgKind::Absent, ArgKind::Absent],
    // 115 getgroups
    [ArgKind::Integer, ArgKind::Address, ArgKind::Absent, ArgKind::Absent, ArgKind::Absent, ArgKind::Absent],
    // 116 setgroups
    [ArgKind::Integer, ArgKind::Address, ArgKind::Absent, ArgKind::Absent, ArgKind::Absent, ArgKind::Absent],
    // 117 setresuid
    [ArgKind::Integer, ArgKind::Integer, ArgKind::Integer, ArgKind::Absent, ArgKind::Absent, ArgKind::Absent],
    // 118 getresuid
    [ArgKind::Address, ArgKind::Address, ArgKind::Address, ArgKind::Absent, ArgKind::Absent, ArgKind::Absent],
    // 119 setresgid
    [ArgKind::Integer, ArgKind::Integer, ArgKind::Integer, ArgKind::Absent, ArgKind::Absent, ArgKind::Absent],
    // 120 getresgid
    [ArgKind::Address, ArgKind::Address, ArgKind::Address, ArgKind::Absent, ArgKind::Absent, ArgKind::Absent],
    // 121 getpgid
    [ArgKind::Integer, ArgKind::Absent, ArgKind::Absent, ArgKind::Absent, ArgKind::Absent, ArgKind::Absent],
    // 122 setfsuid
    [ArgKind::Integer, ArgKind::Absent, ArgKind::Absent, ArgKind::Absent, ArgKind::Absent, ArgKind::Absent],
    // 123 setfsgid
    [ArgKind::Integer, ArgKind::Absent, ArgKind::Absent, ArgKind::Absent, ArgKind::Absent, ArgKind::Absent],
    // 124 getsid
    [ArgKind::Integer, ArgKind::Absent, ArgKind::Absent, ArgKind::Absent, ArgKind::Absent, ArgKind::Absent],
    // 125 capget
    [ArgKind::Address, ArgKind::Address, ArgKind::Absent, ArgKind::Absent, ArgKind::Absent, ArgKind::Absent],
    // 126 capset
    [ArgKind::Address, ArgKind::Address, ArgKind::Absent, ArgKind::Absent, ArgKind::Absent, ArgKind::Absent],
    // 127 rt_sigpending
    [ArgKind::Address, ArgKind::Integer, ArgKind::Absent, ArgKind::Absent, ArgKind::Absent, ArgKind::Absent],
    // 128 rt_sigtimedwait
    [ArgKind::Address, ArgKind::Address, ArgKind::Address, ArgKind::Integer, ArgKind::Absent, ArgKind::Absent],
    // 129 rt_sigqueueinfo
    [ArgKind::Integer, ArgKind::Integer, ArgKind::Address, ArgKind::Absent, ArgKind::Absent, ArgKind::Absent],
    // 130 rt_sigsuspend
    [ArgKind::Address, ArgKind::Integer, ArgKind::Absent, ArgKind::Absent, ArgKind::Absent, ArgKind::Absent],
    // 131 sigaltstack
    [ArgKind::Address, ArgKind::Address, ArgKind::Absent, ArgKind::Absent, ArgKind::Absent, ArgKind::Absent],
    // 132 utime
    [ArgKind::String, ArgKind::Address, ArgKind::Absent, ArgKind::Absent, ArgKind::Absent, ArgKind::Absent],
    // 133 mknod
    [ArgKind::String, ArgKind::Integer, ArgKind::Integer, ArgKind::Absent, ArgKind::Absent, ArgKind::Absent],
    // 134 uselib
    [ArgKind::String, ArgKind::Absent, ArgKind::Absent, ArgKind::Absent, ArgKind::Absent, ArgKind::Absent],
    // 135 personality
    [ArgKind::Integer, ArgKind::Absent, ArgKind::Absent, ArgKind::Absent, ArgKind::Absent, ArgKind::Absent],
    // 136 ustat
    [ArgKind::Integer, ArgKind::Address, ArgKind::Absent, ArgKind::Absent, ArgKind::Absent, ArgKind::Absent],
    // 137 statfs
    [ArgKind::String, ArgKind::Address, ArgKind::Absent, ArgKind::Absent, ArgKind::Absent, ArgKind::Absent],
    // 138 fstatfs
    [ArgKind::Integer, ArgKind::Address, ArgKind::Absent, ArgKind::Absent, ArgKind::Absent, ArgKind::Absent],
    // 139 sysfs
    [ArgKind::Integer, ArgKind::Integer, ArgKind::Integer, ArgKind::Absent, ArgKind::Absent, ArgKind::Absent],
    // 140 getpriority
    [ArgKind::Integer, ArgKind::Integer, ArgKind::Absent, ArgKind::Absent, ArgKind::Absent, ArgKind::Absent],
    // 141 setpriority
    [ArgKind::Integer, ArgKind::Integer, ArgKind::Integer, ArgKind::Absent, ArgKind::Absent, ArgKind::Absent],
    // 142 sched_setparam
    [ArgKind::Integer, ArgKind::Address, ArgKind::Absent, ArgKind::Absent, ArgKind::Absent, ArgKind::Absent],
    // 143 sched_getparam
    [ArgKind::Integer, ArgKind::Address, ArgKind::Absent, ArgKind::Absent, ArgKind::Absent, ArgKind::Absent],
    // 144 sched_setscheduler
    [ArgKind::Integer, ArgKind::Integer, ArgKind::Address, ArgKind::Absent, ArgKind::Absent, ArgKind::Absent],
    // 145 sched_getscheduler
    [ArgKind::Integer, ArgKind::Absent, ArgKind::Absent, ArgKind::Absent, ArgKind::Absent, ArgKind::Absent],
    // 146 sched_get_priority_max
    [ArgKind::Integer, ArgKind::Absent, ArgKind::Absent, ArgKind::Absent, ArgKind::Absent, ArgKind::Absent],
    // 147 sched_get_priority_min
    [ArgKind::Integer, ArgKind::Absent, ArgKind::Absent, ArgKind::Absent, ArgKind::Absent, ArgKind::Absent],
    // 148 sched_rr_get_interval
    [ArgKind::Integer, ArgKind::Address, ArgKind::Absent, ArgKind::Absent, ArgKind::Absent, ArgKind::Absent],
    // 149 mlock
    [ArgKind::Address, ArgKind::Integer, ArgKind::Absent, ArgKind::Absent, ArgKind::Absent, ArgKind::Absent],
    // 150 munlock
    [ArgKind::Address, ArgKind::Integer, ArgKind::Absent, ArgKind::Absent, ArgKind::Absent, ArgKind::Absent],
    // 151 mlockall
    [ArgKind::Integer, ArgKind::Absent, ArgKind::Absent, ArgKind::Absent, ArgKind::Absent, ArgKind::Absent],
    // 152 munlockall
    [ArgKind::Absent, ArgKind::Absent, ArgKind::Absent, ArgKind::Absent, ArgKind::Absent, ArgKind::Absent],
    // 153 vhangup
    [ArgKind::Absent, ArgKind::Absent, ArgKind::Absent, ArgKind::Absent, ArgKind::Absent, ArgKind::Absent],
    // 154 modify_ldt
    [ArgKind::Integer, ArgKind::Address, ArgKind::Integer, ArgKind::Absent, ArgKind::Absent, ArgKind::Absent],
    // 155 pivot_root
    [ArgKind::String, ArgKind::String, ArgKind::Absent, ArgKind::Absent, ArgKind::Absent, ArgKind::Absent],
    // 156 _sysctl
    [ArgKind::Address, ArgKind::Absent, ArgKind::Absent, ArgKind::Absent, ArgKind::Absent, ArgKind::Absent],
    // 157 prctl
    [ArgKind::Integer, ArgKind::Integer, ArgKind::Integer, ArgKind::Integer, ArgKind::Integer, ArgKind::Absent],
    // 158 arch_prctl
    [ArgKind::Integer, ArgKind::Address, ArgKind::Absent, ArgKind::Absent, ArgKind::Absent, ArgKind::Absent],
    // 159 adjtimex
    [ArgKind::Address, ArgKind::Absent, ArgKind::Absent, ArgKind::Absent, ArgKind::Absent, ArgKind::Absent],
    // 160 setrlimit
    [ArgKind::Integer, ArgKind::Address, ArgKind::Absent, ArgKind::Absent, ArgKind::Absent, ArgKind::Absent],
    // 161 chroot
    [ArgKind::String, ArgKind::Absent, ArgKind::Absent, ArgKind::Absent, ArgKind::Absent, ArgKind::Absent],
    // 162 sync
    [ArgKind::Absent, ArgKind::Absent, ArgKind::Absent, ArgKind::Absent, ArgKind::Absent, ArgKind::Absent],
    // 163 acct
    [ArgKind::String, ArgKind::Absent, ArgKind::Absent, ArgKind::Absent, ArgKind::Absent, ArgKind::Absent],
    // 164 settimeofday
    [ArgKind::Address, ArgKind::Address, ArgKind::Absent, ArgKind::Absent, ArgKind::Absent, ArgKind::Absent],
    // 165 mount
    [ArgKind::String, ArgKind::String, ArgKind::String, ArgKind::Integer, ArgKind::Address, ArgKind::Absent],
    // 166 umount2
    [ArgKind::String, ArgKind::Integer, ArgKind::Absent, ArgKind::Absent, ArgKind::Absent, ArgKind::Absent],
    // 167 swapon
    [ArgKind::String, ArgKind::Integer, ArgKind::Absent, ArgKind::Absent, ArgKind::Absent, ArgKind::Absent],
    // 168 swapoff
    [ArgKind::String, ArgKind::Absent, ArgKind::Absent, ArgKind::Absent, ArgKind::Absent, ArgKind::Absent],
    // 169 reboot
    [ArgKind::Integer, ArgKind::Integer, ArgKind::Integer, ArgKind::Address, ArgKind::Absent, ArgKind::Absent],
    // 170 sethostname
    [ArgKind::Address, ArgKind::Integer, ArgKind::Absent, ArgKind::Absent, ArgKind::Absent, ArgKind::Absent],
    // 171 setdomainname
    [ArgKind::Address, ArgKind::Integer, ArgKind::Absent, ArgKind::Absent, ArgKind::Absent, ArgKind::Absent],
    // 172 iopl
    [ArgKind::Integer, ArgKind::Absent, ArgKind::Absent, ArgKind::Absent, ArgKind::Absent, ArgKind::Absent],
    // 173 ioperm
    [ArgKind::Integer, ArgKind::Integer, ArgKind::Integer, ArgKind::Absent, ArgKind::Absent, ArgKind::Absent],
    // 174 create_module
    [ArgKind::String, ArgKind::Integer, ArgKind::Absent, ArgKind::Absent, ArgKind::Absent, ArgKind::Absent],
    // 175 init_module
    [ArgKind::Address, ArgKind::Integer, ArgKind::String, ArgKind::Absent, ArgKind::Absent, ArgKind::Absent],
    // 176 delete_module
    [ArgKind::String, ArgKind::Integer, ArgKind::Absent, ArgKind::Absent, ArgKind::Absent, ArgKind::Absent],
    // 177 get_kernel_syms
    [ArgKind::Address, ArgKind::Absent, ArgKind::Absent, ArgKind::Absent, ArgKind::Absent, ArgKind::Absent],
    // 178 query_module
    [ArgKind::String, ArgKind::Integer, ArgKind::Address, ArgKind::Integer, ArgKind::Address, ArgKind::Absent],
    // 179 quotactl
    [ArgKind::Integer, ArgKind::String, ArgKind::Integer, ArgKind::Address, ArgKind::Absent, ArgKind::Absent],
    // 180 nfsservctl
    [ArgKind::Integer, ArgKind::Address, ArgKind::Address, ArgKind::Absent, ArgKind::Absent, ArgKind::Absent],
    // 181 getpmsg
    [ArgKind::Absent, ArgKind::Absent, ArgKind::Absent, ArgKind::Absent, ArgKind::Absent, ArgKind::Absent],
    // 182 putpmsg
    [ArgKind::Absent, ArgKind::Absent, ArgKind::Absent, ArgKind::Absent, ArgKind::Absent, ArgKind::Absent],
    // 183 afs_syscall
    [ArgKind::Absent, ArgKind::Absent, ArgKind::Absent, ArgKind::Absent, ArgKind::Absent, ArgKind::Absent],
    // 184 tuxcall
    [ArgKind::Absent, ArgKind::Absent, ArgKind::Absent, ArgKind::Absent, ArgKind::Absent, ArgKind::Absent],
    // 185 security
    [ArgKind::Absent, ArgKind::Absent, ArgKind::Absent, ArgKind::Absent, ArgKind::Absent, ArgKind::Absent],
    // 186 gettid
    [ArgKind::Absent, ArgKind::Absent, ArgKind::Absent, ArgKind::Absent, ArgKind::Absent, ArgKind::Absent],
    // 187 readahead
    [ArgKind::Integer, ArgKind::Integer, ArgKind::Integer, ArgKind::Absent, ArgKind::Absent, ArgKind::Absent],
    // 188 setxattr
    [ArgKind::String, ArgKind::String, ArgKind::Address, ArgKind::Integer, ArgKind::Integer, ArgKind::Absent],
    // 189 lsetxattr
    [ArgKind::String, ArgKind::String, ArgKind::Address, ArgKind::Integer, ArgKind::Integer, ArgKind::Absent],
    // 190 fsetxattr
    [ArgKind::Integer, ArgKind::String, ArgKind::Address, ArgKind::Integer, ArgKind::Integer, ArgKind::Absent],
    // 191 getxattr
    [ArgKind::String, ArgKind::String, ArgKind::Address, ArgKind::Integer, ArgKind::Absent, ArgKind::Absent],
    // 192 lgetxattr
    [ArgKind::String, ArgKind::String, ArgKind::Address, ArgKind::Integer, ArgKind::Absent, ArgKind::Absent],
    // 193 fgetxattr
    [ArgKind::Integer, ArgKind::String, ArgKind::Address, ArgKind::Integer, ArgKind::Absent, ArgKind::Absent],
    // 194 listxattr
    [ArgKind::String, ArgKind::Address, ArgKind::Integer, ArgKind::Absent, ArgKind::Absent, ArgKind::Absent],
    // 195 llistxattr
    [ArgKind::String, ArgKind::Address, ArgKind::Integer, ArgKind::Absent, ArgKind::Absent, ArgKind::Absent],
    // 196 flistxattr
    [ArgKind::Integer, ArgKind::Address, ArgKind::Integer, ArgKind::Absent, ArgKind::Absent, ArgKind::Absent],
    // 197 removexattr
    [ArgKind::String, ArgKind::String, ArgKind::Absent, ArgKind::Absent, ArgKind::Absent, ArgKind::Absent],
    // 198 lremovexattr
    [ArgKind::String, ArgKind::String, ArgKind::Absent, ArgKind::Absent, ArgKind::Absent, ArgKind::Absent],
    // 199 fremovexattr
    [ArgKind::Integer, ArgKind::String, ArgKind::Absent, ArgKind::Absent, ArgKind::Absent, ArgKind::Absent],
    // 200 tkill
    [ArgKind::Integer, ArgKind::Integer, ArgKind::Absent, ArgKind::Absent, ArgKind::Absent, ArgKind::Absent],
    // 201 time
    [ArgKind::Address, ArgKind::Absent, ArgKind::Absent, ArgKind::Absent, ArgKind::Absent, ArgKind::Absent],
    // 202 futex
    [ArgKind::Address, ArgKind::Integer, ArgKind::Integer, ArgKind::Address, ArgKind::Address, ArgKind::Integer],
    // 203 sched_setaffinity
    [ArgKind::Integer, ArgKind::Integer, ArgKind::Address, ArgKind::Absent, ArgKind::Absent, ArgKind::Absent],
    // 204 sched_getaffinity
    [ArgKind::Integer, ArgKind::Integer, ArgKind::Address, ArgKind::Absent, ArgKind::Absent, ArgKind::Absent],
    // 205 set_thread_area
    [ArgKind::Address, ArgKind::Absent, ArgKind::Absent, ArgKind::Absent, ArgKind::Absent, ArgKind::Absent],
    // 206 io_setup
    [ArgKind::Integer, ArgKind::Address, ArgKind::Absent, ArgKind::Absent, ArgKind::Absent, ArgKind::Absent],
    // 207 io_destroy
    [ArgKind::Integer, ArgKind::Absent, ArgKind::Absent, ArgKind::Absent, ArgKind::Absent, ArgKind::Absent],
    // 208 io_getevents
    [ArgKind::Integer, ArgKind::Integer, ArgKind::Integer, ArgKind::Address, ArgKind::Address, ArgKind::Absent],
    // 209 io_submit
    [ArgKind::Integer, ArgKind::Integer, ArgKind::Address, ArgKind::Absent, ArgKind::Absent, ArgKind::Absent],
    // 210 io_cancel
    [ArgKind::Integer, ArgKind::Address, ArgKind::Address, ArgKind::Absent, ArgKind::Absent, ArgKind::Absent],
    // 211 get_thread_area
    [ArgKind::Address, ArgKind::Absent, ArgKind::Absent, ArgKind::Absent, ArgKind::Absent, ArgKind::Absent],
    // 212 lookup_dcookie
    [ArgKind::Integer, ArgKind::Address, ArgKind::Integer, ArgKind::Absent, ArgKind::Absent, ArgKind::Absent],
    // 213 epoll_create
    [ArgKind::Integer, ArgKind::Absent, ArgKind::Absent, ArgKind::Absent, ArgKind::Absent, ArgKind::Absent],
    // 214 epoll_ctl_old
    [ArgKind::Absent, ArgKind::Absent, ArgKind::Absent, ArgKind::Absent, ArgKind::Absent, ArgKind::Absent],
    // 215 epoll_wait_old
    [ArgKind::Absent, ArgKind::Absent, ArgKind::Absent, ArgKind::Absent, ArgKind::Absent, ArgKind::Absent],
    // 216 remap_file_pages
    [ArgKind::Address, ArgKind::Integer, ArgKind::Integer, ArgKind::Integer, ArgKind::Integer, ArgKind::Absent],
    // 217 getdents64
    [ArgKind::Integer, ArgKind::Address, ArgKind::Integer, ArgKind::Absent, ArgKind::Absent, ArgKind::Absent],
    // 218 set_tid_address
    [ArgKind::Address, ArgKind::Absent, ArgKind::Absent, ArgKind::Absent, ArgKind::Absent, ArgKind::Absent],
    // 219 restart_syscall
    [ArgKind::Absent, ArgKind::Absent, ArgKind::Absent, ArgKind::Absent, ArgKind::Absent, ArgKind::Absent],
    // 220 semtimedop
    [ArgKind::Integer, ArgKind::Address, ArgKind::Integer, ArgKind::Address, ArgKind::Absent, ArgKind::Absent],
    // 221 fadvise64
    [ArgKind::Integer, ArgKind::Integer, ArgKind::Integer, ArgKind::Integer, ArgKind::Absent, ArgKind::Absent],
    // 222 timer_create
    [ArgKind::Integer, ArgKind::Address, ArgKind::Address, ArgKind::Absent, ArgKind::Absent, ArgKind::Absent],
    // 223 timer_settime
    [ArgKind::Integer, ArgKind::Integer, ArgKind::Address, ArgKind::Address, ArgKind::Absent, ArgKind::Absent],
    // 224 timer_gettime
    [ArgKind::Integer, ArgKind::Address, ArgKind::Absent, ArgKind::Absent, ArgKind::Absent, ArgKind::Absent],
    // 225 timer_getoverrun
    [ArgKind::Integer, ArgKind::Absent, ArgKind::Absent, ArgKind::Absent, ArgKind::Absent, ArgKind::Absent],
    // 226 timer_delete
    [ArgKind::Integer, ArgKind::Absent, ArgKind::Absent, ArgKind::Absent, ArgKind::Absent, ArgKind::Absent],
    // 227 clock_settime
    [ArgKind::Integer, ArgKind::Address, ArgKind::Absent, ArgKind::Absent, ArgKind::Absent, ArgKind::Absent],
    // 228 clock_gettime
    [ArgKind::Integer, ArgKind::Address, ArgKind::Absent, ArgKind::Absent, ArgKind::Absent, ArgKind::Absent],
    // 229 clock_getres
    [ArgKind::Integer, ArgKind::Address, ArgKind::Absent, ArgKind::Absent, ArgKind::Absent, ArgKind::Absent],
    // 230 clock_nanosleep
    [ArgKind::Integer, ArgKind::Integer, ArgKind::Address, ArgKind::Address, ArgKind::Absent, ArgKind::Absent],
    // 231 exit_group
    [ArgKind::Integer, ArgKind::Absent, ArgKind::Absent, ArgKind::Absent, ArgKind::Absent, ArgKind::Absent],
    // 232 epoll_wait
    [ArgKind::Integer, ArgKind::Address, ArgKind::Integer, ArgKind::Integer, ArgKind::Absent, ArgKind::Absent],
    // 233 epoll_ctl
    [ArgKind::Integer, ArgKind::Integer, ArgKind::Integer, ArgKind::Address, ArgKind::Absent, ArgKind::Absent],
    // 234 tgkill
    [ArgKind::Integer, ArgKind::Integer, ArgKind::Integer, ArgKind::Absent, ArgKind::Absent, ArgKind::Absent],
    // 235 utimes
    [ArgKind::String, ArgKind::Address, ArgKind::Absent, ArgKind::Absent, ArgKind::Absent, ArgKind::Absent],
    // 236 vserver
    [ArgKind::Absent, ArgKind::Absent, ArgKind::Absent, ArgKind::Absent, ArgKind::Absent, ArgKind::Absent],
    // 237 mbind
    [ArgKind::Address, ArgKind::Integer, ArgKind::Integer, ArgKind::Address, ArgKind::Integer, ArgKind::Integer],
    // 238 set_mempolicy
    [ArgKind::Integer, ArgKind::Address, ArgKind::Integer, ArgKind::Absent, ArgKind::Absent, ArgKind::Absent],
    // 239 get_mempolicy
    [ArgKind::Address, ArgKind::Address, ArgKind::Integer, ArgKind::Address, ArgKind::Integer, ArgKind::Absent],
    // 240 mq_open
    [ArgKind::String, ArgKind::Integer, ArgKind::Absent, ArgKind::Absent, ArgKind::Absent, ArgKind::Absent],
    // 241 mq_unlink
    [ArgKind::String, ArgKind::Absent, ArgKind::Absent, ArgKind::Absent, ArgKind::Absent, ArgKind::Absent],
    // 242 mq_timedsend
    [ArgKind::Integer, ArgKind::Address, ArgKind::Integer, ArgKind::Integer, ArgKind::Address, ArgKind::Absent],
    // 243 mq_timedreceive
    [ArgKind::Integer, ArgKind::Address, ArgKind::Integer, ArgKind::Address, ArgKind::Address, ArgKind::Absent],
    // 244 mq_notify
    [ArgKind::Integer, ArgKind::Address, ArgKind::Absent, ArgKind::Absent, ArgKind::Absent, ArgKind::Absent],
    // 245 mq_getsetattr
    [ArgKind::Integer, ArgKind::Address, ArgKind::Address, ArgKind::Absent, ArgKind::Absent, ArgKind::Absent],
    // 246 kexec_load
    [ArgKind::Integer, ArgKind::Integer, ArgKind::Address, ArgKind::Integer, ArgKind::Absent, ArgKind::Absent],
    // 247 waitid
    [ArgKind::Integer, ArgKind::Integer, ArgKind::Address, ArgKind::Integer, ArgKind::Address, ArgKind::Absent],
    // 248 add_key
    [ArgKind::String, ArgKind::String, ArgKind::Address, ArgKind::Integer, ArgKind::Integer, ArgKind::Absent],
    // 249 request_key
    [ArgKind::String, ArgKind::String, ArgKind::String, ArgKind::Integer, ArgKind::Absent, ArgKind::Absent],
    // 250 keyctl
    [ArgKind::Integer, ArgKind::Integer, ArgKind::Integer, ArgKind::Integer, ArgKind::Integer, ArgKind::Absent],
    // 251 ioprio_set
    [ArgKind::Integer, ArgKind::Integer, ArgKind::Integer, ArgKind::Absent, ArgKind::Absent, ArgKind::Absent],
    // 252 ioprio_get
    [ArgKind::Integer, ArgKind::Integer, ArgKind::Absent, ArgKind::Absent, ArgKind::Absent, ArgKind::Absent],
    // 253 inotify_init
    [ArgKind::Absent, ArgKind::Absent, ArgKind::Absent, ArgKind::Absent, ArgKind::Absent, ArgKind::Absent],
    // 254 inotify_add_watch
    [ArgKind::Integer, ArgKind::String, ArgKind::Integer, ArgKind::Absent, ArgKind::Absent, ArgKind::Absent],
    // 255 inotify_rm_watch
    [ArgKind::Integer, ArgKind::Integer, ArgKind::Absent, ArgKind::Absent, ArgKind::Absent, ArgKind::Absent],
    // 256 migrate_pages
    [ArgKind::Integer, ArgKind::Integer, ArgKind::Address, ArgKind::Address, ArgKind::Absent, ArgKind::Absent],
    // 257 openat
    [ArgKind::Integer, ArgKind::String, ArgKind::Integer, ArgKind::Absent, ArgKind::Absent, ArgKind::Absent],
    // 258 mkdirat
    [ArgKind::Integer, ArgKind::String, ArgKind::Integer, ArgKind::Absent, ArgKind::Absent, ArgKind::Absent],
    // 259 mknodat
    [ArgKind::Integer, ArgKind::String, ArgKind::Integer, ArgKind::Integer, ArgKind::Absent, ArgKind::Absent],
    // 260 fchownat
    [ArgKind::Integer, ArgKind::String, ArgKind::Integer, ArgKind::Integer, ArgKind::Integer, ArgKind::Absent],
    // 261 futimesat
    [ArgKind::Integer, ArgKind::String, ArgKind::Address, ArgKind::Absent, ArgKind::Absent, ArgKind::Absent],
    // 262 newfstatat
    [ArgKind::Integer, ArgKind::String, ArgKind::Address, ArgKind::Integer, ArgKind::Absent, ArgKind::Absent],
    // 263 unlinkat
    [ArgKind::Integer, ArgKind::String, ArgKind::Integer, ArgKind::Absent, ArgKind::Absent, ArgKind::Absent],
    // 264 renameat
    [ArgKind::Integer, ArgKind::String, ArgKind::Integer, ArgKind::String, ArgKind::Absent, ArgKind::Absent],
    // 265 linkat
    [ArgKind::Integer, ArgKind::String, ArgKind::Integer, ArgKind::String, ArgKind::Integer, ArgKind::Absent],
    // 266 symlinkat
    [ArgKind::String, ArgKind::Integer, ArgKind::String, ArgKind::Absent, ArgKind::Absent, ArgKind::Absent],
    // 267 readlinkat
    [ArgKind::Integer, ArgKind::String, ArgKind::Address, ArgKind::Integer, ArgKind::Absent, ArgKind::Absent],
    // 268 fchmodat
    [ArgKind::Integer, ArgKind::String, ArgKind::Integer, ArgKind::Absent, ArgKind::Absent, ArgKind::Absent],
    // 269 faccessat
    [ArgKind::Integer, ArgKind::String, ArgKind::Integer, ArgKind::Absent, ArgKind::Absent, ArgKind::Absent],
    // 270 pselect6
    [ArgKind::Integer, ArgKind::Address, ArgKind::Address, ArgKind::Address, ArgKind::Address, ArgKind::Address],
    // 271 ppoll
    [ArgKind::Address, ArgKind::Integer, ArgKind::Address, ArgKind::Address, ArgKind::Integer, ArgKind::Absent],
    // 272 unshare
    [ArgKind::Integer, ArgKind::Absent, ArgKind::Absent, ArgKind::Absent, ArgKind::Absent, ArgKind::Absent],
    // 273 set_robust_list
    [ArgKind::Address, ArgKind::Integer, ArgKind::Absent, ArgKind::Absent, ArgKind::Absent, ArgKind::Absent],
    // 274 get_robust_list
    [ArgKind::Integer, ArgKind::Address, ArgKind::Address, ArgKind::Absent, ArgKind::Absent, ArgKind::Absent],
    // 275 splice
    [ArgKind::Integer, ArgKind::Address, ArgKind::Integer, ArgKind::Address, ArgKind::Integer, ArgKind::Integer],
    // 276 tee
    [ArgKind::Integer, ArgKind::Integer, ArgKind::Integer, ArgKind::Integer, ArgKind::Absent, ArgKind::Absent],
    // 277 sync_file_range
    [ArgKind::Integer, ArgKind::Integer, ArgKind::Integer, ArgKind::Integer, ArgKind::Absent, ArgKind::Absent],
    // 278 vmsplice
    [ArgKind::Integer, ArgKind::Address, ArgKind::Integer, ArgKind::Integer, ArgKind::Absent, ArgKind::Absent],
    // 279 move_pages
    [ArgKind::Integer, ArgKind::Integer, ArgKind::Address, ArgKind::Address, ArgKind::Address, ArgKind::Integer],
    // 280 utimensat
    [ArgKind::Integer, ArgKind::String, ArgKind::Address, ArgKind::Integer, ArgKind::Absent, ArgKind::Absent],
    // 281 epoll_pwait
    [ArgKind::Integer, ArgKind::Address, ArgKind::Integer, ArgKind::Integer, ArgKind::Address, ArgKind::Integer],
    // 282 signalfd
    [ArgKind::Integer, ArgKind::Address, ArgKind::Integer, ArgKind::Absent, ArgKind::Absent, ArgKind::Absent],
    // 283 timerfd_create
    [ArgKind::Integer, ArgKind::Integer, ArgKind::Absent, ArgKind::Absent, ArgKind::Absent, ArgKind::Absent],
    // 284 eventfd
    [ArgKind::Integer, ArgKind::Absent, ArgKind::Absent, ArgKind::Absent, ArgKind::Absent, ArgKind::Absent],
    // 285 fallocate
    [ArgKind::Integer, ArgKind::Integer, ArgKind::Integer, ArgKind::Integer, ArgKind::Absent, ArgKind::Absent],
    // 286 timerfd_settime
    [ArgKind::Integer, ArgKind::Integer, ArgKind::Address, ArgKind::Address, ArgKind::Absent, ArgKind::Absent],
    // 287 timerfd_gettime
    [ArgKind::Integer, ArgKind::Address, ArgKind::Absent, ArgKind::Absent, ArgKind::Absent, ArgKind::Absent],
    // 288 accept4
    [ArgKind::Integer, ArgKind::Address, ArgKind::Address, ArgKind::Integer, ArgKind::Absent, ArgKind::Absent],
    // 289 signalfd4
    [ArgKind::Integer, ArgKind::Address, ArgKind::Integer, ArgKind::Integer, ArgKind::Absent, ArgKind::Absent],
    // 290 eventfd2
    [ArgKind::Integer, ArgKind::Integer, ArgKind::Absent, ArgKind::Absent, ArgKind::Absent, ArgKind::Absent],
    // 291 epoll_create1
    [ArgKind::Integer, ArgKind::Absent, ArgKind::Absent, ArgKind::Absent, ArgKind::Absent, ArgKind::Absent],
    // 292 dup3
    [ArgKind::Integer, ArgKind::Integer, ArgKind::Integer, ArgKind::Absent, ArgKind::Absent, ArgKind::Absent],
    // 293 pipe2
    [ArgKind::Address, ArgKind::Integer, ArgKind::Absent, ArgKind::Absent, ArgKind::Absent, ArgKind::Absent],
    // 294 inotify_init1
    [ArgKind::Integer, ArgKind::Absent, ArgKind::Absent, ArgKind::Absent, ArgKind::Absent, ArgKind::Absent],
    // 295 preadv
    [ArgKind::Integer, ArgKind::Address, ArgKind::Integer, ArgKind::Integer, ArgKind::Integer, ArgKind::Absent],
    // 296 pwritev
    [ArgKind::Integer, ArgKind::Address, ArgKind::Integer, ArgKind::Integer, ArgKind::Integer, ArgKind::Absent],
    // 297 rt_tgsigqueueinfo
    [ArgKind::Integer, ArgKind::Integer, ArgKind::Integer, ArgKind::Address, ArgKind::Absent, ArgKind::Absent],
    // 298 perf_event_open
    [ArgKind::Address, ArgKind::Integer, ArgKind::Integer, ArgKind::Integer, ArgKind::Integer, ArgKind::Absent],
    // 299 recvmmsg
    [ArgKind::Integer, ArgKind::Address, ArgKind::Integer, ArgKind::Integer, ArgKind::Address, ArgKind::Absent],
    // 300 fanotify_init
    [ArgKind::Integer, ArgKind::Integer, ArgKind::Absent, ArgKind::Absent, ArgKind::Absent, ArgKind::Absent],
    // 301 fanotify_mark
    [ArgKind::Integer, ArgKind::Integer, ArgKind::Integer, ArgKind::Integer, ArgKind::String, ArgKind::Absent],
    // 302 prlimit64
    [ArgKind::Integer, ArgKind::Integer, ArgKind::Address, ArgKind::Address, ArgKind::Absent, ArgKind::Absent],
    // 303 name_to_handle_at
    [ArgKind::Integer, ArgKind::String, ArgKind::Address, ArgKind::Address, ArgKind::Integer, ArgKind::Absent],
    // 304 open_by_handle_at
    [ArgKind::Integer, ArgKind::Address, ArgKind::Integer, ArgKind::Absent, ArgKind::Absent, ArgKind::Absent],
    // 305 clock_adjtime
    [ArgKind::Integer, ArgKind::Address, ArgKind::Absent, ArgKind::Absent, ArgKind::Absent, ArgKind::Absent],
    // 306 syncfs
    [ArgKind::Integer, ArgKind::Absent, ArgKind::Absent, ArgKind::Absent, ArgKind::Absent, ArgKind::Absent],
    // 307 sendmmsg
    [ArgKind::Integer, ArgKind::Address, ArgKind::Integer, ArgKind::Integer, ArgKind::Absent, ArgKind::Absent],
    // 308 setns
    [ArgKind::Integer, ArgKind::Integer, ArgKind::Absent, ArgKind::Absent, ArgKind::Absent, ArgKind::Absent],
    // 309 getcpu
    [ArgKind::Address, ArgKind::Address, ArgKind::Address, ArgKind::Absent, ArgKind::Absent, ArgKind::Absent],
    // 310 process_vm_readv
    [ArgKind::Integer, ArgKind::Address, ArgKind::Integer, ArgKind::Address, ArgKind::Integer, ArgKind::Integer],
    // 311 process_vm_writev
    [ArgKind::Integer, ArgKind::Address, ArgKind::Integer, ArgKind::Address, ArgKind::Integer, ArgKind::Integer],
    // 312 kcmp
    [ArgKind::Integer, ArgKind::Integer, ArgKind::Integer, ArgKind::Integer, ArgKind::Integer, ArgKind::Absent],
    // 313 finit_module
    [ArgKind::Integer, ArgKind::String, ArgKind::Integer, ArgKind::Absent, ArgKind::Absent, ArgKind::Absent],
    // 314 sched_setattr
    [ArgKind::Integer, ArgKind::Address, ArgKind::Integer, ArgKind::Absent, ArgKind::Absent, ArgKind::Absent],
    // 315 sched_getattr
    [ArgKind::Integer, ArgKind::Address, ArgKind::Integer, ArgKind::Integer, ArgKind::Absent, ArgKind::Absent],
    // 316 renameat2
    [ArgKind::Integer, ArgKind::String, ArgKind::Integer, ArgKind::String, ArgKind::Integer, ArgKind::Absent],
    // 317 seccomp
    [ArgKind::Integer, ArgKind::Integer, ArgKind::Address, ArgKind::Absent, ArgKind::Absent, ArgKind::Absent],
    // 318 getrandom
    [ArgKind::Address, ArgKind::Integer, ArgKind::Integer, ArgKind::Absent, ArgKind::Absent, ArgKind::Absent],
    // 319 memfd_create
    [ArgKind::String, ArgKind::Integer, ArgKind::Absent, ArgKind::Absent, ArgKind::Absent, ArgKind::Absent],
    // 320 kexec_file_load
    [ArgKind::Integer, ArgKind::Integer, ArgKind::Integer, ArgKind::String, ArgKind::Integer, ArgKind::Absent],
    // 321 bpf
    [ArgKind::Integer, ArgKind::Address, ArgKind::Integer, ArgKind::Absent, ArgKind::Absent, ArgKind::Absent],
    // 322 execveat
    [ArgKind::Integer, ArgKind::String, ArgKind::Address, ArgKind::Address, ArgKind::Integer, ArgKind::Absent],
    // 323 userfaultfd
    [ArgKind::Integer, ArgKind::Absent, ArgKind::Absent, ArgKind::Absent, ArgKind::Absent, ArgKind::Absent],
    // 324 membarrier
    [ArgKind::Integer, ArgKind::Integer, ArgKind::Integer, ArgKind::Absent, ArgKind::Absent, ArgKind::Absent],
    // 325 mlock2
    [ArgKind::Address, ArgKind::Integer, ArgKind::Integer, ArgKind::Absent, ArgKind::Absent, ArgKind::Absent],
    // 326 copy_file_range
    [ArgKind::Integer, ArgKind::Address, ArgKind::Integer, ArgKind::Address, ArgKind::Integer, ArgKind::Integer],
    // 327 preadv2
    [ArgKind::Integer, ArgKind::Address, ArgKind::Integer, ArgKind::Integer, ArgKind::Integer, ArgKind::Integer],
    // 328 pwritev2
    [ArgKind::Integer, ArgKind::Address, ArgKind::Integer, ArgKind::Integer, ArgKind::Integer, ArgKind::Integer],
    // 329 pkey_mprotect
    [ArgKind::Address, ArgKind::Integer, ArgKind::Integer, ArgKind::Integer, ArgKind::Absent, ArgKind::Absent],
    // 330 pkey_alloc
    [ArgKind::Integer, ArgKind::Integer, ArgKind::Absent, ArgKind::Absent, ArgKind::Absent, ArgKind::Absent],
    // 331 pkey_free
    [ArgKind::Integer, ArgKind::Absent, ArgKind::Absent, ArgKind::Absent, ArgKind::Absent, ArgKind::Absent],
    // 332 statx
    [ArgKind::Integer, ArgKind::String, ArgKind::Integer, ArgKind::Integer, ArgKind::Address, ArgKind::Absent],
    // 333 io_pgetevents
    [ArgKind::Integer, ArgKind::Integer, ArgKind::Integer, ArgKind::Address, ArgKind::Address, ArgKind::Address],
    // 334 rseq
    [ArgKind::Address, ArgKind::Integer, ArgKind::Integer, ArgKind::Integer, ArgKind::Absent, ArgKind::Absent],
];

/// Whether the table has an entry for `number`.
pub open spec fn is_known(number: int) -> bool {
    0 <= number < SYSCALL_COUNT
}

/// The table's entry for `number`, meaningful where `is_known(number)`.
pub open spec fn signature_of(number: int) -> SyscallSignature {
    SyscallSignature { name: SYSCALL_NAMES[number], arg_kinds: SYSCALL_ARG_KINDS[number] }
}

impl SyscallSignature {
    /// The kind of argument slot `slot`.
    pub open spec fn kind(self, slot: int) -> ArgKind {
        self.arg_kinds@[slot]
    }
}

/// The entry of a system call number that the table knows.
pub fn signature(number: u64) -> (sig: SyscallSignature)
    requires
        is_known(number as int),
    ensures
        sig == signature_of(number as int),
        sig.name@.len() > 0,
{
    proof {
        lemma_signature_complete(number as int);
    }
    SyscallSignature {
        name: SYSCALL_NAMES[number as usize],
        arg_kinds: SYSCALL_ARG_KINDS[number as usize],
    }
}

/// The entry of `number`, or `None` where the table has none.
pub fn lookup(number: u64) -> (found: Option<SyscallSignature>)
    ensures
        found is Some <==> is_known(number as int),
        found matches Some(sig) ==> sig == signature_of(number as int),
{
    if number < SYSCALL_COUNT {
        Some(signature(number))
    } else {
        None
    }
}

/// Every entry of the table has a name that is not empty and exactly six
/// argument kinds, and its slots without an argument come last.
pub proof fn lemma_signature_complete(number: int)
    requires
        is_known(number),
    ensures
        signature_of(number).name@.len() > 0,
        signature_of(number).arg_kinds@.len() == ARG_SLOTS,
        forall|i: int, j: int|
            0 <= i <= j < ARG_SLOTS && signature_of(number).kind(i) == ArgKind::Absent
                ==> signature_of(number).kind(j) == ArgKind::Absent,
{
    lemma_names_nonempty_0();
    lemma_names_nonempty_1();
    lemma_names_nonempty_2();
    lemma_names_nonempty_3();
    lemma_names_nonempty_4();
    lemma_names_nonempty_5();
    lemma_names_nonempty_6();
}

proof fn lemma_names_nonempty_0()
    ensures
        forall|number: int| 0 <= number < 48 ==> (#[trigger] SYSCALL_NAMES[number])@.len() > 0,
{
    reveal_strlit("read");
    reveal_strlit("write");
    reveal_strlit("open");
    reveal_strlit("close");
    reveal_strlit("stat");
    reveal_strlit("fstat");
    reveal_strlit("lstat");
    reveal_strlit("poll");
    reveal_strlit("lseek");
    reveal_strlit("mmap");
    reveal_strlit("mprotect");
    reveal_strlit("munmap");
    reveal_strlit("brk");
    reveal_strlit("rt_sigaction");
    reveal_strlit("rt_sigprocmask");
    reveal_strlit("rt_sigreturn");
    reveal_strlit("ioctl");
    reveal_strlit("pread64");
    reveal_strlit("pwrite64");
    reveal_strlit("readv");
    reveal_strlit("writev");
    reveal_strlit("access");
    reveal_strlit("pipe");
    reveal_strlit("select");
    reveal_strlit("sched_yield");
    reveal_strlit("mremap");
    reveal_strlit("msync");
    reveal_strlit("mincore");
    reveal_strlit("madvise");
    reveal_strlit("shmget");
    reveal_strlit("shmat");
    reveal_strlit("shmctl");
    reveal_strlit("dup");
    reveal_strlit("dup2");
    reveal_strlit("pause");
    reveal_strlit("nanosleep");
    reveal_strlit("getitimer");
    reveal_strlit("alarm");
    reveal_strlit("setitimer");
    reveal_strlit("getpid");
    reveal_strlit("sendfile");
    reveal_strlit("socket");
    reveal_strlit("connect");
    reveal_strlit("accept");
    reveal_strlit("sendto");
    reveal_strlit("recvfrom");
    reveal_strlit("sendmsg");
    reveal_strlit("recvmsg");
}

proof fn lemma_names_nonempty_1()
    ensures
        forall|number: int| 48 <= number < 96 ==> (#[trigger] SYSCALL_NAMES[number])@.len() > 0,
{
    reveal_strlit("shutdown");
    reveal_strlit("bind");
    reveal_strlit("listen");
    reveal_strlit("getsockname");
    reveal_strlit("getpeername");
    reveal_strlit("socketpair");
    reveal_strlit("setsockopt");
    reveal_strlit("getsockopt");
    reveal_strlit("clone");
    reveal_strlit("fork");
    reveal_strlit("vfork");
    reveal_strlit("execve");
    reveal_strlit("exit");
    reveal_strlit("wait4");
    reveal_strlit("kill");
    reveal_strlit("uname");
    reveal_strlit("semget");
    reveal_strlit("semop");
    reveal_strlit("semctl");
    reveal_strlit("shmdt");
    reveal_strlit("msgget");
    reveal_strlit("msgsnd");
    reveal_strlit("msgrcv");
    reveal_strlit("msgctl");
    reveal_strlit("fcntl");
    reveal_strlit("flock");
    reveal_strlit("fsync");
    reveal_strlit("fdatasync");
    reveal_strlit("truncate");
    reveal_strlit("ftruncate");
    reveal_strlit("getdents");
    reveal_strlit("getcwd");
    reveal_strlit("chdir");
    reveal_strlit("fchdir");
    reveal_strlit("rename");
    reveal_strlit("mkdir");
    reveal_strlit("rmdir");
    reveal_strlit("creat");
    reveal_strlit("link");
    reveal_strlit("unlink");
    reveal_strlit("symlink");
    reveal_strlit("readlink");
    reveal_strlit("chmod");
    reveal_strlit("fchmod");
    reveal_strlit("chown");
    reveal_strlit("fchown");
    reveal_strlit("lchown");
    reveal_strlit("umask");
}

proof fn lemma_names_nonempty_2()
    ensures
        forall|number: int| 96 <= number < 144 ==> (#[trigger] SYSCALL_NAMES[number])@.len() > 0,
{
    reveal_strlit("gettimeofday");
    reveal_strlit("getrlimit");
    reveal_strlit("getrusage");
    reveal_strlit("sysinfo");
    reveal_strlit("times");
    reveal_strlit("ptrace");
    reveal_strlit("getuid");
    reveal_strlit("syslog");
    reveal_strlit("getgid");
    reveal_strlit("setuid");
    reveal_strlit("setgid");
    reveal_strlit("geteuid");
    reveal_strlit("getegid");
    reveal_strlit("setpgid");
    reveal_strlit("getppid");
    reveal_strlit("getpgrp");
    reveal_strlit("setsid");
    reveal_strlit("setreuid");
    reveal_strlit("setregid");
    reveal_strlit("getgroups");
    reveal_strlit("setgroups");
    reveal_strlit("setresuid");
    reveal_strlit("getresuid");
    reveal_strlit("setresgid");
    reveal_strlit("getresgid");
    reveal_strlit("getpgid");
    reveal_strlit("setfsuid");
    reveal_strlit("setfsgid");
    reveal_strlit("getsid");
    reveal_strlit("capget");
    reveal_strlit("capset");
    reveal_strlit("rt_sigpending");
    reveal_strlit("rt_sigtimedwait");
    reveal_strlit("rt_sigqueueinfo");
    reveal_strlit("rt_sigsuspend");
    reveal_strlit("sigaltstack");
    reveal_strlit("utime");
    reveal_strlit("mknod");
    reveal_strlit("uselib");
    reveal_strlit("personality");
    reveal_strlit("ustat");
    reveal_strlit("statfs");
    reveal_strlit("fstatfs");
    reveal_strlit("sysfs");
    reveal_strlit("getpriority");
    reveal_strlit("setpriority");
    reveal_strlit("sched_setparam");
    reveal_strlit("sched_getparam");
}

proof fn lemma_names_nonempty_3()
    ensures
        forall|number: int| 144 <= number < 192 ==> (#[trigger] SYSCALL_NAMES[number])@.len() > 0,
{
    reveal_strlit("sched_setscheduler");
    reveal_strlit("sched_getscheduler");
    reveal_strlit("sched_get_priority_max");
    reveal_strlit("sched_get_priority_min");
    reveal_strlit("sched_rr_get_interval");
    reveal_strlit("mlock");
    reveal_strlit("munlock");
    reveal_strlit("mlockall");
    reveal_strlit("munlockall");
    reveal_strlit("vhangup");
    reveal_strlit("modify_ldt");
    reveal_strlit("pivot_root");
    reveal_strlit("_sysctl");
    reveal_strlit("prctl");
    reveal_strlit("arch_prctl");
    reveal_strlit("adjtimex");
    reveal_strlit("setrlimit");
    reveal_strlit("chroot");
    reveal_strlit("sync");
    reveal_strlit("acct");
    reveal_strlit("settimeofday");
    reveal_strlit("mount");
    reveal_strlit("umount2");
    reveal_strlit("swapon");
    reveal_strlit("swapoff");
    reveal_strlit("reboot");
    reveal_strlit("sethostname");
    reveal_strlit("setdomainname");
    reveal_strlit("iopl");
    reveal_strlit("ioperm");
    reveal_strlit("create_module");
    reveal_strlit("init_module");
    reveal_strlit("delete_module");
    reveal_strlit("get_kernel_syms");
    reveal_strlit("query_module");
    reveal_strlit("quotactl");
    reveal_strlit("nfsservctl");
    reveal_strlit("getpmsg");
    reveal_strlit("putpmsg");
    reveal_strlit("afs_syscall");
    reveal_strlit("tuxcall");
    reveal_strlit("security");
    reveal_strlit("gettid");
    reveal_strlit("readahead");
    reveal_strlit("setxattr");
    reveal_strlit("lsetxattr");
    reveal_strlit("fsetxattr");
    reveal_strlit("getxattr");
}

proof fn lemma_names_nonempty_4()
    ensures
        forall|number: int| 192 <= number < 240 ==> (#[trigger] SYSCALL_NAMES[number])@.len() > 0,
{
    reveal_strlit("lgetxattr");
    reveal_strlit("fgetxattr");
    reveal_strlit("listxattr");
    reveal_strlit("llistxattr");
    reveal_strlit("flistxattr");
    reveal_strlit("removexattr");
    reveal_strlit("lremovexattr");
    reveal_strlit("fremovexattr");
    reveal_strlit("tkill");
    reveal_strlit("time");
    reveal_strlit("futex");
    reveal_strlit("sched_setaffinity");
    reveal_strlit("sched_getaffinity");
    reveal_strlit("set_thread_area");
    reveal_strlit("io_setup");
    reveal_strlit("io_destroy");
    reveal_strlit("io_getevents");
    reveal_strlit("io_submit");
    reveal_strlit("io_cancel");
    reveal_strlit("get_thread_area");
    reveal_strlit("lookup_dcookie");
    reveal_strlit("epoll_create");
    reveal_strlit("epoll_ctl_old");
    reveal_strlit("epoll_wait_old");
    reveal_strlit("remap_file_pages");
    reveal_strlit("getdents64");
    reveal_strlit("set_tid_address");
    reveal_strlit("restart_syscall");
    reveal_strlit("semtimedop");
    reveal_strlit("fadvise64");
    reveal_strlit("timer_create");
    reveal_strlit("timer_settime");
    reveal_strlit("timer_gettime");
    reveal_strlit("timer_getoverrun");
    reveal_strlit("timer_delete");
    reveal_strlit("clock_settime");
    reveal_strlit("clock_gettime");
    reveal_strlit("clock_getres");
    reveal_strlit("clock_nanosleep");
    reveal_strlit("exit_group");
    reveal_strlit("epoll_wait");
    reveal_strlit("epoll_ctl");
    reveal_strlit("tgkill");
    reveal_strlit("utimes");
    reveal_strlit("vserver");
    reveal_strlit("mbind");
    reveal_strlit("set_mempolicy");
    reveal_strlit("get_mempolicy");
}

proof fn lemma_names_nonempty_5()
    ensures
        forall|number: int| 240 <= number < 288 ==> (#[trigger] SYSCALL_NAMES[number])@.len() > 0,
{
    reveal_strlit("mq_open");
    reveal_strlit("mq_unlink");
    reveal_strlit("mq_timedsend");
    reveal_strlit("mq_timedreceive");
    reveal_strlit("mq_notify");
    reveal_strlit("mq_getsetattr");
    reveal_strlit("kexec_load");
    reveal_strlit("waitid");
    reveal_strlit("add_key");
    reveal_strlit("request_key");
    reveal_strlit("keyctl");
    reveal_strlit("ioprio_set");
    reveal_strlit("ioprio_get");
    reveal_strlit("inotify_init");
    reveal_strlit("inotify_add_watch");
    reveal_strlit("inotify_rm_watch");
    reveal_strlit("migrate_pages");
    reveal_strlit("openat");
    reveal_strlit("mkdirat");
    reveal_strlit("mknodat");
    reveal_strlit("fchownat");
    reveal_strlit("futimesat");
    reveal_strlit("newfstatat");
    reveal_strlit("unlinkat");
    reveal_strlit("renameat");
    reveal_strlit("linkat");
    reveal_strlit("symlinkat");
    reveal_strlit("readlinkat");
    reveal_strlit("fchmodat");
    reveal_strlit("faccessat");
    reveal_strlit("pselect6");
    reveal_strlit("ppoll");
    reveal_strlit("unshare");
    reveal_strlit("set_robust_list");
    reveal_strlit("get_robust_list");
    reveal_strlit("splice");
    reveal_strlit("tee");
    reveal_strlit("sync_file_range");
    reveal_strlit("vmsplice");
    reveal_strlit("move_pages");
    reveal_strlit("utimensat");
    reveal_strlit("epoll_pwait");
    reveal_strlit("signalfd");
    reveal_strlit("timerfd_create");
    reveal_strlit("eventfd");
    reveal_strlit("fallocate");
    reveal_strlit("timerfd_settime");
    reveal_strlit("timerfd_gettime");
}

proof fn lemma_names_nonempty_6()
    ensures
        forall|number: int| 288 <= number < 335 ==> (#[trigger] SYSCALL_NAMES[number])@.len() > 0,
{
    reveal_strlit("accept4");
    reveal_strlit("signalfd4");
    reveal_strlit("eventfd2");
    reveal_strlit("epoll_create1");
    reveal_strlit("dup3");
    reveal_strlit("pipe2");
    reveal_strlit("inotify_init1");
    reveal_strlit("preadv");
    reveal_strlit("pwritev");
    reveal_strlit("rt_tgsigqueueinfo");
    reveal_strlit("perf_event_open");
    reveal_strlit("recvmmsg");
    reveal_strlit("fanotify_init");
    reveal_strlit("fanotify_mark");
    reveal_strlit("prlimit64");
    reveal_strlit("name_to_handle_at");
    reveal_strlit("open_by_handle_at");
    reveal_strlit("clock_adjtime");
    reveal_strlit("syncfs");
    reveal_strlit("sendmmsg");
    reveal_strlit("setns");
    reveal_strlit("getcpu");
    reveal_strlit("process_vm_readv");
    reveal_strlit("process_vm_writev");
    reveal_strlit("kcmp");
    reveal_strlit("finit_module");
    reveal_strlit("sched_setattr");
    reveal_strlit("sched_getattr");
    reveal_strlit("renameat2");
    reveal_strlit("seccomp");
    reveal_strlit("getrandom");
    reveal_strlit("memfd_create");
    reveal_strlit("kexec_file_load");
    reveal_strlit("bpf");
    reveal_strlit("execveat");
    reveal_strlit("userfaultfd");
    reveal_strlit("membarrier");
    reveal_strlit("mlock2");
    reveal_strlit("copy_file_range");
    reveal_strlit("preadv2");
    reveal_strlit("pwritev2");
    reveal_strlit("pkey_mprotect");
    reveal_strlit("pkey_alloc");
    reveal_strlit("pkey_free");
    reveal_strlit("statx");
    reveal_strlit("io_pgetevents");
    reveal_strlit("rseq");
}
} // verus!
