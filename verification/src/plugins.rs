//! Dynamic plugin discovery and registration.
//!
//! Plugins are found by convention: plugin `name` lives in the shared object
//! `libgst<name>.so` and exports the entry point `gst_plugin_<name>_register`.
//! The walk over the plugin list has a fixed failure policy: an attempt that
//! fails is logged and skipped, never fatal; a library that opened is kept
//! open even when its entry point was not found.  The unverified layer only
//! opens objects and resolves symbols — which name to open, which symbol to
//! look up, and what an outcome does to the walk are all decided here.

use vstd::prelude::*;

verus! {

/// The shared object that holds plugin `name`, by the framework's naming
/// convention.
pub fn plugin_library_name(name: &str) -> (r: String)
    ensures
        r@ == "libgst"@ + name@ + ".so"@,
{
    let mut out = String::from_str("libgst");
    out.append(name);
    out.append(".so");
    out
}

/// The registration entry point exported by plugin `name`, by the
/// framework's naming convention.
pub fn plugin_registrar_symbol(name: &str) -> (r: String)
    ensures
        r@ == "gst_plugin_"@ + name@ + "_register"@,
{
    let mut out = String::from_str("gst_plugin_");
    out.append(name);
    out.append("_register");
    out
}

/// How one plugin load attempt ended.
#[derive(Clone, Copy, Debug, PartialEq, Eq, Structural)]
pub enum PluginOutcome {
    /// The shared object could not be opened; nothing is kept.
    LibraryMissing,
    /// The object opened but its registration entry point was not found;
    /// the open library is kept anyway.
    RegistrarMissing,
    /// The object opened and its registration entry point was invoked.
    Registered,
}

/// Whether an attempt retains its open library handle: it does whenever the
/// open itself succeeded, registered or not.
pub open spec fn spec_keeps_library(o: PluginOutcome) -> bool {
    o != PluginOutcome::LibraryMissing
}

/// Whether an attempt retains its open library handle.
pub fn keeps_library(o: PluginOutcome) -> (b: bool)
    ensures
        b == spec_keeps_library(o),
{
    match o {
        PluginOutcome::LibraryMissing => false,
        PluginOutcome::RegistrarMissing => true,
        PluginOutcome::Registered => true,
    }
}

/// How many attempts of `s` retained their library.
pub open spec fn kept_count(s: Seq<PluginOutcome>) -> int
    decreases s.len(),
{
    if s.len() == 0 {
        0
    } else {
        kept_count(s.drop_last()) + if spec_keeps_library(s.last()) {
            1int
        } else {
            0int
        }
    }
}

/// No walk retains more libraries than the attempts it made.
pub proof fn lemma_kept_count_bounds(s: Seq<PluginOutcome>)
    ensures
        0 <= kept_count(s) <= s.len(),
    decreases s.len(),
{
    if s.len() > 0 {
        lemma_kept_count_bounds(s.drop_last());
    }
}

/// A walk over a fixed plugin list.  One outcome is recorded per name, in
/// order; no outcome stops the walk, and the count of retained libraries is
/// carried along.
pub struct PluginLoader {
    /// The plugin names, fixed at construction.
    pub names: Vec<String>,
    /// The outcomes recorded so far, one per attempted name.
    pub outcomes: Vec<PluginOutcome>,
    /// How many attempts retained their library.
    pub kept: usize,
}

impl PluginLoader {
    /// The loader's invariant: never more outcomes than names, and `kept`
    /// counting exactly the retaining outcomes.
    pub open spec fn wf(self) -> bool {
        &&& self.outcomes@.len() <= self.names@.len()
        &&& self.kept == kept_count(self.outcomes@)
    }

    /// The index of the name the next attempt is for.
    pub open spec fn cursor(self) -> int {
        self.outcomes@.len() as int
    }

    /// Whether every name has been attempted.
    pub open spec fn spec_finished(self) -> bool {
        self.outcomes@.len() == self.names@.len()
    }

    /// A fresh walk over `names`, nothing attempted yet.
    pub fn new(names: Vec<String>) -> (r: Self)
        ensures
            r.wf(),
            r.names@ == names@,
            r.outcomes@ =~= Seq::<PluginOutcome>::empty(),
            r.kept == 0,
    {
        PluginLoader { names, outcomes: Vec::new(), kept: 0 }
    }

    /// Whether every name has been attempted.
    pub fn finished(&self) -> (b: bool)
        ensures
            b == self.spec_finished(),
    {
        self.outcomes.len() == self.names.len()
    }

    /// The shared object to open for the next attempt, when one remains.
    pub fn next_library(&self) -> (r: Option<String>)
        requires
            self.wf(),
        ensures
            self.spec_finished() ==> r is None,
            !self.spec_finished() ==> (r matches Some(s) && s@ == "libgst"@
                + self.names@[self.cursor()]@ + ".so"@),
    {
        if self.outcomes.len() < self.names.len() {
            Some(plugin_library_name(self.names[self.outcomes.len()].as_str()))
        } else {
            None
        }
    }

    /// The entry point to resolve for the next attempt, when one remains.
    pub fn next_registrar(&self) -> (r: Option<String>)
        requires
            self.wf(),
        ensures
            self.spec_finished() ==> r is None,
            !self.spec_finished() ==> (r matches Some(s) && s@ == "gst_plugin_"@
                + self.names@[self.cursor()]@ + "_register"@),
    {
        if self.outcomes.len() < self.names.len() {
            Some(plugin_registrar_symbol(self.names[self.outcomes.len()].as_str()))
        } else {
            None
        }
    }

    /// Records the next attempt's outcome.  Every outcome is accepted: the
    /// walk advances by one name whatever happened, and `kept` grows exactly
    /// when the outcome retains its library.
    pub fn record(&mut self, outcome: PluginOutcome)
        requires
            old(self).wf(),
            !old(self).spec_finished(),
        ensures
            final(self).wf(),
            final(self).names@ == old(self).names@,
            final(self).outcomes@ == old(self).outcomes@.push(outcome),
            final(self).kept == old(self).kept + if spec_keeps_library(outcome) {
                1int
            } else {
                0int
            },
    {
        proof {
            lemma_kept_count_bounds(self.outcomes@);
        }
        let total = self.names.len();
        assert(self.kept < total);
        if keeps_library(outcome) {
            self.kept = self.kept + 1;
        }
        self.outcomes.push(outcome);
        proof {
            assert(self.outcomes@.drop_last() =~= old(self).outcomes@);
        }
    }

    /// How many attempts have retained their library so far.
    pub fn kept_libraries(&self) -> (n: usize)
        ensures
            n == self.kept,
    {
        self.kept
    }
}

/// The plugin list the example application registers: the framework's core
/// and base plugins first, then the platform media codec plugin.
pub fn default_plugin_names() -> (r: Vec<String>)
    ensures
        r@.len() == 23,
        r@[0]@ == "coreelements"@,
        r@[1]@ == "coretracers"@,
        r@[2]@ == "adder"@,
        r@[3]@ == "app"@,
        r@[4]@ == "audioconvert"@,
        r@[5]@ == "audiomixer"@,
        r@[6]@ == "audiorate"@,
        r@[7]@ == "audioresample"@,
        r@[8]@ == "audiotestsrc"@,
        r@[9]@ == "compositor"@,
        r@[10]@ == "gio"@,
        r@[11]@ == "overlaycomposition"@,
        r@[12]@ == "pango"@,
        r@[13]@ == "rawparse"@,
        r@[14]@ == "typefindfunctions"@,
        r@[15]@ == "videoconvert"@,
        r@[16]@ == "videorate"@,
        r@[17]@ == "videoscale"@,
        r@[18]@ == "videotestsrc"@,
        r@[19]@ == "volume"@,
        r@[20]@ == "autodetect"@,
        r@[21]@ == "videofilter"@,
        r@[22]@ == "androidmedia"@,
{
    let mut r: Vec<String> = Vec::new();
    r.push(String::from_str("coreelements"));
    r.push(String::from_str("coretracers"));
    r.push(String::from_str("adder"));
    r.push(String::from_str("app"));
    r.push(String::from_str("audioconvert"));
    r.push(String::from_str("audiomixer"));
    r.push(String::from_str("audiorate"));
    r.push(String::from_str("audioresample"));
    r.push(String::from_str("audiotestsrc"));
    r.push(String::from_str("compositor"));
    r.push(String::from_str("gio"));
    r.push(String::from_str("overlaycomposition"));
    r.push(String::from_str("pango"));
    r.push(String::from_str("rawparse"));
    r.push(String::from_str("typefindfunctions"));
    r.push(String::from_str("videoconvert"));
    r.push(String::from_str("videorate"));
    r.push(String::from_str("videoscale"));
    r.push(String::from_str("videotestsrc"));
    r.push(String::from_str("volume"));
    r.push(String::from_str("autodetect"));
    r.push(String::from_str("videofilter"));
    r.push(String::from_str("androidmedia"));
    r
}

/// Registration hook for GIO modules.  The builds this shim targets route
/// their GIO support through the ordinary plugin list, so there is nothing
/// to load here.
pub fn gst_android_load_gio_modules() {
}

} // verus!
