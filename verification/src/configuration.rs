//! The configuration document's in-memory form: per-monitor shader
//! assignments, keyed by output name. Locating and parsing the document is
//! the unverified shell's work; it hands the plain entries in here.

use vstd::prelude::*;
use vstd::string::StringExecFns;

verus! {

/// One entry of the configuration document: the output it applies to and
/// the shader file that output should run.
#[derive(Debug)]
pub struct MonitorConfig {
    pub name: String,
    pub shader: String,
}

impl Clone for MonitorConfig {
    fn clone(&self) -> (copied: Self)
        ensures
            copied == *self,
    {
        MonitorConfig { name: self.name.clone(), shader: self.shader.clone() }
    }
}

/// The loaded configuration document: a list of per-monitor entries in
/// document order. When no document exists at all, the system runs with
/// `None` of these and every output uses the built-in default shader.
#[derive(Debug)]
pub struct Configuration {
    monitors: Vec<MonitorConfig>,
}

impl View for Configuration {
    type V = Seq<MonitorConfig>;

    closed spec fn view(&self) -> Seq<MonitorConfig> {
        self.monitors@
    }
}

/// The first entry whose name equals `name`, if any: the document is
/// searched in order and the earliest match wins.
pub open spec fn spec_monitor_for(monitors: Seq<MonitorConfig>, name: Seq<char>) -> Option<
    MonitorConfig,
>
    decreases monitors.len(),
{
    if monitors.len() == 0 {
        None
    } else if monitors[0].name@ == name {
        Some(monitors[0])
    } else {
        spec_monitor_for(monitors.drop_first(), name)
    }
}

/// Searching past a prefix with no match leaves the result unchanged.
proof fn lemma_monitor_for_skip_prefix(monitors: Seq<MonitorConfig>, name: Seq<char>, skip: int)
    requires
        0 <= skip <= monitors.len(),
        forall|j: int| 0 <= j < skip ==> monitors[j].name@ != name,
    ensures
        spec_monitor_for(monitors, name) == spec_monitor_for(
            monitors.subrange(skip, monitors.len() as int),
            name,
        ),
    decreases skip,
{
    if skip == 0 {
        assert(monitors.subrange(0, monitors.len() as int) =~= monitors);
    } else {
        lemma_monitor_for_skip_prefix(monitors, name, skip - 1);
        let tail = monitors.subrange(skip - 1, monitors.len() as int);
        assert(tail.drop_first() =~= monitors.subrange(skip, monitors.len() as int));
    }
}

impl Clone for Configuration {
    fn clone(&self) -> (copied: Self)
        ensures
            copied@ == self@,
    {
        let mut monitors: Vec<MonitorConfig> = Vec::new();
        let mut i: usize = 0;
        while i < self.monitors.len()
            invariant
                i <= self.monitors.len(),
                monitors@ =~= self.monitors@.subrange(0, i as int),
            decreases self.monitors.len() - i,
        {
            monitors.push(self.monitors[i].clone());
            i = i + 1;
        }
        assert(monitors@ =~= self.monitors@);
        Configuration { monitors }
    }
}

impl Configuration {
    /// Wraps the entries the shell parsed out of the document.
    pub fn new(monitors: Vec<MonitorConfig>) -> (config: Self)
        ensures
            config@ == monitors@,
    {
        Configuration { monitors }
    }

    /// Looks the given output name up in the document: the first entry with
    /// that exact name, or `None` when the name is not listed.
    pub fn monitor_config(&self, name: &str) -> (found: Option<MonitorConfig>)
        ensures
            found == spec_monitor_for(self@, name@),
    {
        let wanted: String = name.to_owned();
        let mut i: usize = 0;
        while i < self.monitors.len()
            invariant
                i <= self.monitors.len(),
                wanted@ == name@,
                forall|j: int| 0 <= j < i ==> self.monitors@[j].name@ != name@,
            decreases self.monitors.len() - i,
        {
            if self.monitors[i].name == wanted {
                proof {
                    lemma_monitor_for_skip_prefix(self.monitors@, name@, i as int);
                    let tail = self.monitors@.subrange(i as int, self.monitors@.len() as int);
                    assert(tail[0] == self.monitors@[i as int]);
                }
                return Some(self.monitors[i].clone());
            }
            i = i + 1;
        }
        proof {
            lemma_monitor_for_skip_prefix(self.monitors@, name@, self.monitors@.len() as int);
        }
        None
    }

    /// Rewrites every entry's shader to `base` + "/" + shader, turning the
    /// document-relative file names into full paths under the directory the
    /// document was found in.
    pub fn resolve_shader_paths(&mut self, base: &str)
        ensures
            final(self)@.len() == old(self)@.len(),
            forall|i: int|
                0 <= i < old(self)@.len() ==> final(self)@[i].name@ == old(self)@[i].name@
                    && final(self)@[i].shader@ == base@ + "/"@ + old(self)@[i].shader@,
    {
        let mut resolved: Vec<MonitorConfig> = Vec::new();
        let mut i: usize = 0;
        while i < self.monitors.len()
            invariant
                i <= self.monitors.len(),
                resolved@.len() == i as int,
                forall|j: int|
                    0 <= j < i ==> resolved@[j].name@ == self.monitors@[j].name@
                        && resolved@[j].shader@ == base@ + "/"@ + self.monitors@[j].shader@,
            decreases self.monitors.len() - i,
        {
            let mut path: String = base.to_owned();
            path.append("/");
            path.append(self.monitors[i].shader.as_str());
            resolved.push(MonitorConfig { name: self.monitors[i].name.clone(), shader: path });
            i = i + 1;
        }
        self.monitors = resolved;
    }
}

} // verus!
