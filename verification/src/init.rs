//! The JNI lifecycle: the version handshake at load time, the handles
//! captured from the host, the run latch of the example entry point, and the
//! decisions the init entry point takes on the host's answers.

use vstd::prelude::*;

verus! {

/// The oldest embedding API version the shim accepts: JNI 1.4, encoded as
/// the platform encodes versions, major in the upper sixteen bits.
pub const MIN_JNI_VERSION: i32 = 0x0001_0004;

/// What the load entry point returns, given how the calls into the host
/// went: the negotiated version when the environment was obtained, the
/// bridge class was found and the version is recent enough; zero — the
/// value the host reads as a failed load — otherwise.
pub fn on_load_result(env_obtained: bool, version: Option<i32>, class_found: bool) -> (r: i32)
    ensures
        r == (match version {
            Some(v) => if env_obtained && class_found && v >= MIN_JNI_VERSION {
                v
            } else {
                0
            },
            None => 0,
        }),
{
    match version {
        Some(v) => if env_obtained && class_found && v >= MIN_JNI_VERSION {
            v
        } else {
            0
        },
        None => 0,
    }
}

/// The example runner's one-shot latch: a run is spawned only when none is
/// underway.
pub struct RunGuard {
    pub running: bool,
}

impl RunGuard {
    /// A latch with nothing running.
    pub fn new() -> (r: RunGuard)
        ensures
            !r.running,
    {
        RunGuard { running: false }
    }

    /// Claims the run.  Afterwards a run is underway in every case; the
    /// result says whether the caller is the one to start it.
    pub fn try_begin(&mut self) -> (started: bool)
        ensures
            final(self).running,
            started == !old(self).running,
    {
        let started = !self.running;
        self.running = true;
        started
    }

    /// Releases the latch when the run ends.
    pub fn finish(&mut self)
        ensures
            !final(self).running,
    {
        self.running = false;
    }

    /// Whether a run is underway.
    pub fn is_running(&self) -> (b: bool)
        ensures
            b == self.running,
    {
        self.running
    }
}

/// The handles captured from the host, each possibly still unset.  The raw
/// pointers stay in the unverified layer; here a handle is its address, and
/// an accessor's `None` is what the C accessors hand out as null.
pub struct HostHandles {
    pub java_vm: Option<usize>,
    pub context: Option<usize>,
    pub class_loader: Option<usize>,
}

impl HostHandles {
    /// Nothing captured yet.
    pub fn new() -> (r: HostHandles)
        ensures
            r.java_vm is None,
            r.context is None,
            r.class_loader is None,
    {
        HostHandles { java_vm: None, context: None, class_loader: None }
    }

    /// Remembers the virtual machine handle at load time.
    pub fn store_java_vm(&mut self, vm: usize)
        ensures
            final(self).java_vm == Some(vm),
            final(self).context == old(self).context,
            final(self).class_loader == old(self).class_loader,
    {
        self.java_vm = Some(vm);
    }

    /// Remembers the application context and its class loader, each as far
    /// as making the host's global reference succeeded.
    pub fn store_context(&mut self, context: Option<usize>, class_loader: Option<usize>)
        ensures
            final(self).context == context,
            final(self).class_loader == class_loader,
            final(self).java_vm == old(self).java_vm,
    {
        self.context = context;
        self.class_loader = class_loader;
    }

    /// The stored virtual machine handle.
    pub fn java_vm(&self) -> (r: Option<usize>)
        ensures
            r == self.java_vm,
    {
        self.java_vm
    }

    /// The stored application context handle.
    pub fn context(&self) -> (r: Option<usize>)
        ensures
            r == self.context,
    {
        self.context
    }

    /// The stored class loader handle.
    pub fn class_loader(&self) -> (r: Option<usize>)
        ensures
            r == self.class_loader,
    {
        self.class_loader
    }
}

/// How the init entry point proceeds after asking the host for the
/// application's class loader.
#[derive(Clone, Copy, Debug, PartialEq, Eq, Structural)]
pub enum CaptureStep {
    /// The loader was obtained and no host exception is pending: keep the
    /// stored handles and continue initializing.
    Proceed,
    /// A host exception is pending after storing the handles: describe and
    /// clear it, then give up.
    ClearExceptionAndStop,
    /// The call failed, returned no object, or the pending-exception ask
    /// itself failed: give up.
    Stop,
}

/// Decides the capture step.  `call_ok` is the class-loader call returning
/// at all, `value_is_object` its answer being an object, and
/// `exception_checked` the host's answer to the pending-exception ask,
/// `None` when that ask itself failed.
pub fn capture_decision(call_ok: bool, value_is_object: bool, exception_checked: Option<bool>) -> (r:
    CaptureStep)
    ensures
        r == (if call_ok && value_is_object {
            match exception_checked {
                Some(false) => CaptureStep::Proceed,
                Some(true) => CaptureStep::ClearExceptionAndStop,
                None => CaptureStep::Stop,
            }
        } else {
            CaptureStep::Stop
        }),
{
    if call_ok && value_is_object {
        match exception_checked {
            Some(false) => CaptureStep::Proceed,
            Some(true) => CaptureStep::ClearExceptionAndStop,
            None => CaptureStep::Stop,
        }
    } else {
        CaptureStep::Stop
    }
}

/// The message of the exception thrown back at the host when the
/// framework's own initialization fails.
pub fn init_failure_message(detail: &str) -> (r: String)
    ensures
        r@ == "GStreamer initialization failed: "@ + detail@,
{
    let mut out = String::from_str("GStreamer initialization failed: ");
    out.append(detail);
    out
}

} // verus!
