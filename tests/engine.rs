use mem::config::{Config, InjectionMethod, DEFAULT_WAIT_TIMEOUT_MS, INFINITE_WAIT};
use mem::engine::{Action, Attempt, Injected, Injector, Phase, Reply, LOADER_MODULE, LOADER_SYMBOL};
use mem::error::InjectionError;
use mem::image::{load_image, map_image, parse_image};
use mem::os::{injection_access, wait_status, WaitStatus, PAGE_EXECUTE_READWRITE, PAGE_READWRITE};

/// A simulated system: answers each action, failing the named call, and
/// records the order of the calls.
struct SimOs {
    fail: Option<&'static str>,
    partial_write: bool,
    exit_code: u32,
    calls: Vec<&'static str>,
    written: Vec<u8>,
}

impl SimOs {
    fn new(fail: Option<&'static str>) -> SimOs {
        SimOs { fail, partial_write: false, exit_code: 0x5000_0000, calls: Vec::new(), written: Vec::new() }
    }

    fn reply(&mut self, a: &Action) -> Reply {
        let name = match a {
            Action::OpenProcess { .. } => "open_process",
            Action::Allocate { .. } => "virtual_alloc",
            Action::Write { .. } => "write_memory",
            Action::ResolveExport { .. } => "resolve_export",
            Action::Protect { .. } => "virtual_protect",
            Action::CreateRemoteThread { .. } => "create_remote_thread",
            Action::Wait { .. } => "wait",
            Action::Free { .. } => "virtual_free",
            Action::CloseHandle => "close_handle",
            Action::Finish(_) => "finish",
        };
        self.calls.push(name);
        if self.fail == Some(name) {
            return Reply::Failed;
        }
        match a {
            Action::Allocate { .. } => Reply::Value(0x1000_0000),
            Action::Write { data, .. } => {
                self.written = data.clone();
                if self.partial_write {
                    Reply::Value(data.len() - 1)
                } else {
                    Reply::Value(data.len())
                }
            }
            Action::ResolveExport { .. } => Reply::Value(0x7FF0_1234),
            Action::Wait { .. } => Reply::Exited(self.exit_code),
            _ => Reply::Value(1),
        }
    }
}

fn drive(os: &mut SimOs, start: (Attempt, Action)) -> (Attempt, Vec<Action>, Result<Injected, InjectionError>) {
    let (mut attempt, mut action) = start;
    let mut actions = Vec::new();
    for _ in 0..20 {
        if let Action::Finish(outcome) = action {
            actions.push(Action::Finish(outcome));
            return (attempt, actions, outcome);
        }
        let reply = os.reply(&action);
        actions.push(action);
        action = attempt.step(reply);
    }
    panic!("the attempt did not end");
}

fn load_library(pid: u32, path: &str, os: &mut SimOs) -> (Attempt, Vec<Action>, Result<Injected, InjectionError>) {
    let injector = Injector::new(Config::default());
    drive(os, injector.begin(pid, path.as_bytes().to_vec()))
}

#[test]
fn end_to_end_load_library() {
    let mut os = SimOs::new(None);
    let (attempt, actions, outcome) = load_library(101784, "payload.dll", &mut os);
    assert_eq!(
        os.calls,
        vec![
            "open_process",
            "virtual_alloc",
            "write_memory",
            "resolve_export",
            "create_remote_thread",
            "wait",
            "virtual_free",
            "close_handle"
        ]
    );
    assert_eq!(actions[0], Action::OpenProcess { pid: 101784, access: 0x43A });
    assert_eq!(actions[1], Action::Allocate { size: 12, protection: PAGE_READWRITE });
    assert_eq!(actions[2], Action::Write { address: 0x1000_0000, data: b"payload.dll\0".to_vec() });
    assert_eq!(actions[3], Action::ResolveExport { module: "kernel32.dll", symbol: "LoadLibraryA" });
    assert_eq!(actions[4], Action::CreateRemoteThread { entry: 0x7FF0_1234, argument: 0x1000_0000 });
    assert_eq!(actions[5], Action::Wait { timeout_ms: DEFAULT_WAIT_TIMEOUT_MS });
    assert_eq!(actions[6], Action::Free { address: 0x1000_0000 });
    assert_eq!(actions[7], Action::CloseHandle);
    assert_eq!(outcome, Ok(Injected { module_base: 0x5000_0000, exit_code: 0x5000_0000 }));
    assert!(outcome.unwrap().module_base != 0);
    assert_eq!(attempt.phase, Phase::Done);
    assert!(!attempt.cleanup_failed);
    assert_eq!(LOADER_MODULE, "kernel32.dll");
    assert_eq!(LOADER_SYMBOL, "LoadLibraryA");
}

#[test]
fn unreachable_target_makes_no_other_call() {
    let mut os = SimOs::new(Some("open_process"));
    let (_, _, outcome) = load_library(4, "payload.dll", &mut os);
    assert_eq!(outcome, Err(InjectionError::TargetUnreachable));
    assert_eq!(os.calls, vec!["open_process"]);
}

#[test]
fn failed_allocation_closes_handle() {
    let mut os = SimOs::new(Some("virtual_alloc"));
    let (_, _, outcome) = load_library(4, "payload.dll", &mut os);
    assert_eq!(outcome, Err(InjectionError::AllocationFailed));
    assert_eq!(os.calls, vec!["open_process", "virtual_alloc", "close_handle"]);
}

#[test]
fn failed_write_frees_allocation() {
    let mut os = SimOs::new(Some("write_memory"));
    let (_, _, outcome) = load_library(4, "payload.dll", &mut os);
    assert_eq!(outcome, Err(InjectionError::WriteFailed));
    assert_eq!(os.calls, vec!["open_process", "virtual_alloc", "write_memory", "virtual_free", "close_handle"]);
}

#[test]
fn partial_write_is_a_failure() {
    let mut os = SimOs::new(None);
    os.partial_write = true;
    let (_, _, outcome) = load_library(4, "payload.dll", &mut os);
    assert_eq!(outcome, Err(InjectionError::WriteFailed));
    assert!(os.calls.contains(&"virtual_free"));
    assert!(!os.calls.contains(&"create_remote_thread"));
}

#[test]
fn failed_resolution_creates_no_thread() {
    let mut os = SimOs::new(Some("resolve_export"));
    let (_, _, outcome) = load_library(4, "payload.dll", &mut os);
    assert_eq!(outcome, Err(InjectionError::SymbolResolutionFailed));
    assert_eq!(
        os.calls,
        vec!["open_process", "virtual_alloc", "write_memory", "resolve_export", "virtual_free", "close_handle"]
    );
}

#[test]
fn failed_thread_creation_frees_allocation() {
    let mut os = SimOs::new(Some("create_remote_thread"));
    let (_, actions, outcome) = load_library(4, "payload.dll", &mut os);
    assert_eq!(outcome, Err(InjectionError::RemoteExecutionFailed));
    assert!(actions.contains(&Action::Free { address: 0x1000_0000 }));
    assert_eq!(os.calls.last(), Some(&"close_handle"));
}

#[test]
fn wait_without_signal_times_out() {
    let mut os = SimOs::new(Some("wait"));
    let injector = Injector::new(Config::new(InjectionMethod::LoadLibraryInvocation, 250, true));
    let (_, actions, outcome) = drive(&mut os, injector.begin(4, b"payload.dll".to_vec()));
    assert_eq!(outcome, Err(InjectionError::Timeout));
    assert!(actions.contains(&Action::Wait { timeout_ms: 250 }));
    assert_eq!(os.calls[5..], ["wait", "virtual_free", "close_handle"]);
}

#[test]
fn loader_returning_null_is_a_failure() {
    let mut os = SimOs::new(None);
    os.exit_code = 0;
    let (_, _, outcome) = load_library(4, "payload.dll", &mut os);
    assert_eq!(outcome, Err(InjectionError::RemoteExecutionFailed));
    assert!(os.calls.contains(&"virtual_free"));
}

#[test]
fn failed_free_is_noted_not_escalated() {
    let mut os = SimOs::new(Some("virtual_free"));
    let (attempt, actions, outcome) = load_library(4, "payload.dll", &mut os);
    assert!(outcome.is_ok());
    assert!(attempt.cleanup_failed);
    let frees = actions.iter().filter(|a| matches!(a, Action::Free { .. })).count();
    assert_eq!(frees, 1);
}

#[test]
fn steps_after_the_end_repeat_the_outcome() {
    let mut os = SimOs::new(None);
    let (mut attempt, _, outcome) = load_library(4, "payload.dll", &mut os);
    assert_eq!(attempt.step(Reply::Failed), Action::Finish(outcome));
    assert_eq!(attempt.step(Reply::Value(3)), Action::Finish(outcome));
}

#[test]
fn keeping_allocations_skips_the_free_after_success() {
    let mut os = SimOs::new(None);
    let injector = Injector::new(Config::new(InjectionMethod::LoadLibraryInvocation, 100, false));
    let (_, _, outcome) = drive(&mut os, injector.begin(4, b"payload.dll".to_vec()));
    assert!(outcome.is_ok());
    assert!(!os.calls.contains(&"virtual_free"));
}

#[test]
fn invalid_paths_make_no_call() {
    let injector = Injector::new(Config::default());
    let (_, action) = injector.begin(4, Vec::new());
    assert_eq!(action, Action::Finish(Err(InjectionError::InvalidInput)));
    let (_, action) = injector.begin(4, b"pay\0load.dll".to_vec());
    assert_eq!(action, Action::Finish(Err(InjectionError::InvalidInput)));
}

#[test]
fn config_defaults_and_bounds() {
    let c = Config::default();
    assert_eq!(c.method, InjectionMethod::LoadLibraryInvocation);
    assert_eq!(c.wait_timeout_ms, 10_000);
    assert!(c.free_transient_allocations);
    let c = Config::new(InjectionMethod::ManualMap, INFINITE_WAIT, false);
    assert_eq!(c.wait_timeout_ms, 0xFFFF_FFFE);
    let mut raw = Config::default();
    raw.wait_timeout_ms = INFINITE_WAIT;
    let (attempt, _) = Attempt::new(raw, 4, b"a.dll".to_vec());
    assert_eq!(attempt.config.wait_timeout_ms, 0xFFFF_FFFE);
}

#[test]
fn os_codes() {
    assert_eq!(injection_access(), 0x43A);
    assert_eq!(wait_status(0), WaitStatus::Signaled);
    assert_eq!(wait_status(0x102), WaitStatus::TimedOut);
    assert_eq!(wait_status(0xFFFF_FFFF), WaitStatus::Failed);
    assert_eq!(wait_status(0x80), WaitStatus::Abandoned);
}

fn put_u16(b: &mut [u8], o: usize, v: u16) {
    b[o..o + 2].copy_from_slice(&v.to_le_bytes());
}

fn put_u32(b: &mut [u8], o: usize, v: u32) {
    b[o..o + 4].copy_from_slice(&v.to_le_bytes());
}

/// A small 64-bit image linked for 0x1_8000_0000: headers of 0x200 bytes,
/// one section of 0x20 bytes at image offset 0x1000 taken from file offset
/// 0x200, entry point at 0x1004. The section starts with the address
/// 0x1_8000_1010, and a relocation block at 0x1008 lists it.
fn sample_image() -> Vec<u8> {
    let mut b = vec![0u8; 0x220];
    b[0] = b'M';
    b[1] = b'Z';
    put_u32(&mut b, 0x3C, 0x40);
    b[0x40..0x44].copy_from_slice(b"PE\0\0");
    put_u16(&mut b, 0x46, 1);
    put_u16(&mut b, 0x54, 0xF0);
    let opt = 0x58;
    put_u16(&mut b, opt, 0x20B);
    put_u32(&mut b, opt + 16, 0x1004);
    b[opt + 24..opt + 32].copy_from_slice(&0x1_8000_0000u64.to_le_bytes());
    put_u32(&mut b, opt + 56, 0x2000);
    put_u32(&mut b, opt + 60, 0x200);
    put_u32(&mut b, opt + 152, 0x1008);
    put_u32(&mut b, opt + 156, 12);
    let sec = opt + 0xF0;
    put_u32(&mut b, sec + 8, 0x20);
    put_u32(&mut b, sec + 12, 0x1000);
    put_u32(&mut b, sec + 16, 0x20);
    put_u32(&mut b, sec + 20, 0x200);
    b[0x200..0x208].copy_from_slice(&0x1_8000_1010u64.to_le_bytes());
    put_u32(&mut b, 0x208, 0x1000);
    put_u32(&mut b, 0x20C, 12);
    put_u16(&mut b, 0x210, 0xA000);
    put_u16(&mut b, 0x212, 0);
    b
}

#[test]
fn image_headers_are_read() {
    let file = sample_image();
    let info = parse_image(&file).unwrap();
    assert_eq!(info.entry_rva, 0x1004);
    assert_eq!(info.size_of_image, 0x2000);
    assert_eq!(info.size_of_headers, 0x200);
    assert_eq!(info.section_count, 1);
    assert_eq!(info.section_table, 0x148);
    assert_eq!(info.image_base, 0x1_8000_0000);
    assert_eq!(info.reloc_rva, 0x1008);
    assert_eq!(info.reloc_size, 12);
    let mut bad = file.clone();
    bad[0x41] = b'X';
    assert!(parse_image(&bad).is_none());
    assert!(parse_image(&vec![0u8; 10]).is_none());
}

#[test]
fn image_is_laid_out() {
    let file = sample_image();
    let info = parse_image(&file).unwrap();
    let img = map_image(&file, info);
    assert_eq!(img.len(), 0x2000);
    assert_eq!(&img[..0x200], &file[..0x200]);
    assert_eq!(&img[0x1000..0x1020], &file[0x200..0x220]);
    assert!(img[0x200..0x1000].iter().all(|&x| x == 0));
    assert!(img[0x1020..].iter().all(|&x| x == 0));
}

#[test]
fn image_is_relocated_for_its_base() {
    let file = sample_image();
    let info = parse_image(&file).unwrap();
    let same = load_image(&file, info, 0x1_8000_0000);
    assert_eq!(same, map_image(&file, info));
    let moved = load_image(&file, info, 0x1000_0000);
    assert_eq!(&moved[0x1000..0x1008], &0x1000_1010u64.to_le_bytes());
    assert_eq!(&moved[0x1008..0x1020], &file[0x208..0x220]);
    let up = load_image(&file, info, 0x2_0000_0000);
    assert_eq!(&up[0x1000..0x1008], &0x2_0000_1010u64.to_le_bytes());
}

#[test]
fn manual_map_runs_at_image_entry() {
    let mut os = SimOs::new(None);
    let injector = Injector::new(Config::new(InjectionMethod::ManualMap, 500, true));
    let (attempt, actions, outcome) = drive(&mut os, injector.begin(7, sample_image()));
    assert_eq!(
        os.calls,
        vec!["open_process", "virtual_alloc", "write_memory", "virtual_protect", "create_remote_thread", "wait", "close_handle"]
    );
    assert_eq!(actions[1], Action::Allocate { size: 0x2000, protection: PAGE_READWRITE });
    assert_eq!(actions[3], Action::Protect { address: 0x1000_0000, size: 0x2000, protection: PAGE_EXECUTE_READWRITE });
    assert_eq!(actions[4], Action::CreateRemoteThread { entry: 0x1000_1004, argument: 0 });
    assert_eq!(os.written.len(), 0x2000);
    assert_eq!(&os.written[0x1000..0x1008], &0x1000_1010u64.to_le_bytes());
    assert_eq!(outcome, Ok(Injected { module_base: 0x1000_0000, exit_code: 0x5000_0000 }));
    assert!(attempt.allocation.unwrap().persistent);
}

#[test]
fn manual_map_failed_protect_frees_image() {
    let mut os = SimOs::new(Some("virtual_protect"));
    let injector = Injector::new(Config::new(InjectionMethod::ManualMap, 500, true));
    let (_, _, outcome) = drive(&mut os, injector.begin(7, sample_image()));
    assert_eq!(outcome, Err(InjectionError::SymbolResolutionFailed));
    assert!(!os.calls.contains(&"create_remote_thread"));
    assert_eq!(os.calls[4..], ["virtual_free", "close_handle"]);
}

#[test]
fn manual_map_rejects_non_image() {
    let injector = Injector::new(Config::new(InjectionMethod::ManualMap, 500, true));
    let (_, action) = injector.begin(7, b"not an image".to_vec());
    assert_eq!(action, Action::Finish(Err(InjectionError::InvalidInput)));
}
