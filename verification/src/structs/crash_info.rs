//! The detailed crash record: process identity, exception, threads with
//! their frames, and the binary images that were loaded.

use vstd::prelude::*;

verus! {

/// The operating system build the process ran on.
#[derive(Debug)]
pub struct OSVersion {
    pub is_embedded: bool,
    pub train: String,
    pub release_type: String,
    pub build: String,
}

/// What stopped the process.
#[derive(Debug)]
pub struct Exception {
    pub codes: String,
    pub raw_codes: Vec<u64>,
    pub exception_type: String,
    pub signal: String,
    pub subtype: Option<String>,
}

/// Who ended the process, where the system recorded it.
#[derive(Debug)]
pub struct Termination {
    pub flags: i32,
    pub code: i64,
    pub namespace: String,
    pub indicator: Option<String>,
    pub by_proc: Option<String>,
    pub by_pid: Option<u32>,
}

/// One thread of the process. `triggered` is set on the thread that
/// faulted.
#[derive(Debug, Clone)]
pub struct Thread {
    pub id: u32,
    pub name: Option<String>,
    pub triggered: Option<bool>,
    pub frames: Vec<Frame>,
    pub thread_state: Option<ThreadState>,
    pub queue: Option<String>,
}

/// One entry of a call stack: an image, by its index among the used images,
/// and an offset from that image's load address.
#[derive(Debug, Clone)]
pub struct Frame {
    pub image_offset: u64,
    pub symbol: Option<String>,
    pub symbol_location: Option<u32>,
    pub image_index: u32,
}

/// The registers of a thread at the time of the fault.
#[derive(Debug, Clone)]
pub struct ThreadState {
    pub flavor: String,
    pub lr: Register,
    pub cpsr: Register,
    pub fp: Register,
    pub sp: Register,
    pub esr: Esr,
    pub pc: Register,
    pub far: Register,
    pub x: Vec<Register>,
}

/// One register, with the symbol or selector its value points at, if any.
#[derive(Debug, Clone)]
pub struct Register {
    pub value: u64,
    pub symbol_location: Option<u64>,
    pub symbol: Option<String>,
    pub objc_selector: Option<String>,
}

/// The exception syndrome register.
#[derive(Debug, Clone)]
pub struct Esr {
    pub value: u64,
    pub description: String,
}

/// A binary image that was loaded into the process. `base` is the address
/// it was loaded at, which the system randomizes; `path` is where the
/// system found it when the process ran.
#[derive(Debug)]
pub struct UsedImage {
    pub source: String,
    pub arch: Option<String>,
    pub base: u64,
    pub size: u64,
    pub uuid: String,
    pub path: Option<String>,
    pub name: Option<String>,
}

/// The shared cache the system libraries were mapped from.
#[derive(Debug)]
pub struct SharedCache {
    pub base: u64,
    pub size: u64,
    pub uuid: String,
}

/// What older report formats said about the faulting thread.
#[derive(Debug)]
pub struct LegacyInfo {
    pub thread_triggered: ThreadTriggered,
}

/// Name and queue of the faulting thread.
#[derive(Debug)]
pub struct ThreadTriggered {
    pub name: Option<String>,
    pub queue: Option<String>,
}

/// The feature rollouts that were active.
#[derive(Debug)]
pub struct TrialInfo {
    pub rollouts: Vec<Rollout>,
}

/// One feature rollout.
#[derive(Debug)]
pub struct Rollout {
    pub rollout_id: String,
    pub factor_pack_ids: FactorPackIds,
    pub deployment_id: u64,
}

/// The factor packs of a rollout.
#[derive(Debug)]
pub struct FactorPackIds {
    pub siri_morphun_assets: Option<String>,
    pub siri_home_automation_intent_selection_cache: Option<String>,
}

/// The crash record as a whole. Where `last_exception_backtrace` is there,
/// it is the stack to report, before that of any thread.
#[derive(Debug)]
pub struct CrashInfo {
    pub user_id: u32,
    pub model_code: String,
    pub os_version: OSVersion,
    pub cpu_type: String,
    pub proc_name: String,
    pub proc_path: String,
    pub parent_proc: String,
    pub parent_pid: u32,
    pub coalition_name: Option<String>,
    pub exception: Exception,
    pub faulting_thread: u32,
    pub threads: Vec<Thread>,
    pub used_images: Vec<UsedImage>,
    pub termination: Option<Termination>,
    pub last_exception_backtrace: Option<Vec<Frame>>,
}

} // verus!
