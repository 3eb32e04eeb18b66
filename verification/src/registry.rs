//! The output registry: owns the set of in-scope outputs and their render
//! sessions, and answers every window-system output and layer event. Each
//! handler updates the registry's own state and returns the list of GPU
//! actions the unverified shell must perform, in order.

use crate::action::{spec_release_actions, GpuAction};
use crate::configuration::{spec_monitor_for, Configuration};
use crate::session::{
    effective_size, spec_effective_size, RenderSession, ShaderSource, Transform,
};
use crate::uniform::spec_next_frame;
use vstd::prelude::*;

verus! {

/// A physical display output as the window system reports it: its stable
/// name (the configuration lookup key), its mode's pixel dimensions, and
/// its rotation.
#[derive(Debug)]
pub struct OutputIdentity {
    pub name: String,
    pub width: u32,
    pub height: u32,
    pub transform: Transform,
}

/// Whether an output with this name is in scope: with no configuration
/// document every output is; with one, exactly the outputs it lists are.
pub open spec fn spec_in_scope(config: Option<Configuration>, name: Seq<char>) -> bool {
    match config {
        None => true,
        Some(c) => spec_monitor_for(c@, name) is Some,
    }
}

/// The shader file configured for this output name, if any; `None` means
/// the built-in default shader.
pub open spec fn spec_shader_path_for(config: Option<Configuration>, name: Seq<char>) -> Option<
    String,
> {
    match config {
        None => None,
        Some(c) => match spec_monitor_for(c@, name) {
            Some(monitor) => Some(monitor.shader),
            None => None,
        },
    }
}

/// Whether some session is registered under this output name.
pub open spec fn spec_has_session(sessions: Seq<RenderSession>, name: Seq<char>) -> bool {
    exists|i: int| 0 <= i < sessions.len() && sessions[i].name@ == name
}

/// The index of the session owning this layer id, if any. Under the
/// registry's well-formedness the index is unique.
pub open spec fn spec_session_for_layer(sessions: Seq<RenderSession>, layer_id: u64) -> Option<
    int,
> {
    if exists|i: int| 0 <= i < sessions.len() && sessions[i].layer_id == layer_id {
        Some(choose|i: int| 0 <= i < sessions.len() && sessions[i].layer_id == layer_id)
    } else {
        None
    }
}

/// The registry: the sessions of all accepted outputs, the configuration
/// document (immutable for the registry's whole run), the next unused layer
/// id, and the close flag the event loop polls once per iteration.
#[derive(Debug)]
pub struct OutputRegistry {
    pub sessions: Vec<RenderSession>,
    pub config: Option<Configuration>,
    pub next_layer_id: u64,
    pub closed: bool,
}

impl OutputRegistry {
    /// Registry well-formedness: every session keeps its all-or-none
    /// resource invariant, sessions are keyed uniquely by name and by layer
    /// id, and no session's layer id has been handed out twice.
    pub open spec fn wf(self) -> bool {
        &&& (forall|i: int|
            0 <= i < self.sessions@.len() ==> (#[trigger] self.sessions@[i]).wf())
        &&& (forall|i: int|
            0 <= i < self.sessions@.len() ==> (#[trigger] self.sessions@[i]).layer_id
                < self.next_layer_id)
        &&& (forall|i: int, j: int|
            0 <= i < j < self.sessions@.len() ==> (#[trigger] self.sessions@[i]).name@ != (
            #[trigger] self.sessions@[j]).name@)
        &&& (forall|i: int, j: int|
            0 <= i < j < self.sessions@.len() ==> (#[trigger] self.sessions@[i]).layer_id != (
            #[trigger] self.sessions@[j]).layer_id)
    }

    /// An empty registry over the configuration loaded before the run.
    pub fn new(config: Option<Configuration>) -> (registry: Self)
        ensures
            registry.wf(),
            registry.sessions@.len() == 0,
            registry.config == config,
            registry.next_layer_id == 0,
            !registry.closed,
    {
        OutputRegistry { sessions: Vec::new(), config, next_layer_id: 0, closed: false }
    }

    /// Whether this output name is in scope of the configuration.
    pub fn output_in_scope(&self, name: &str) -> (in_scope: bool)
        ensures
            in_scope == spec_in_scope(self.config, name@),
    {
        match &self.config {
            None => true,
            Some(config) => config.monitor_config(name).is_some(),
        }
    }

    /// Whether a session is registered under this output name.
    pub fn has_session(&self, name: &str) -> (present: bool)
        ensures
            present == spec_has_session(self.sessions@, name@),
    {
        self.index_of_name(name).is_some()
    }

    /// How many sessions the registry holds.
    pub fn session_count(&self) -> (count: usize)
        ensures
            count == self.sessions@.len(),
    {
        self.sessions.len()
    }

    fn index_of_name(&self, name: &str) -> (found: Option<usize>)
        ensures
            match found {
                Some(i) => i < self.sessions@.len() && self.sessions@[i as int].name@ == name@,
                None => !spec_has_session(self.sessions@, name@),
            },
    {
        let wanted: String = name.to_owned();
        let mut i: usize = 0;
        while i < self.sessions.len()
            invariant
                i <= self.sessions.len(),
                wanted@ == name@,
                forall|j: int| 0 <= j < i ==> self.sessions@[j].name@ != name@,
            decreases self.sessions.len() - i,
        {
            if self.sessions[i].name == wanted {
                return Some(i);
            }
            i = i + 1;
        }
        None
    }

    fn index_of_layer(&self, layer_id: u64) -> (found: Option<usize>)
        ensures
            match found {
                Some(i) => i < self.sessions@.len() && self.sessions@[i as int].layer_id
                    == layer_id,
                None => forall|j: int|
                    0 <= j < self.sessions@.len() ==> (#[trigger] self.sessions@[j]).layer_id
                        != layer_id,
            },
    {
        let mut i: usize = 0;
        while i < self.sessions.len()
            invariant
                i <= self.sessions.len(),
                forall|j: int|
                    0 <= j < i ==> (#[trigger] self.sessions@[j]).layer_id != layer_id,
            decreases self.sessions.len() - i,
        {
            if self.sessions[i].layer_id == layer_id {
                return Some(i);
            }
            i = i + 1;
        }
        None
    }

    /// The shader file to read for this layer's session, if it has one
    /// configured; the shell reads the file and hands the text (or the
    /// failure) to `on_configure`.
    pub fn shader_path_for_layer(&self, layer_id: u64) -> (path: Option<String>)
        requires
            self.wf(),
        ensures
            match spec_session_for_layer(self.sessions@, layer_id) {
                Some(i) => path == self.sessions@[i].shader_path,
                None => path is None,
            },
    {
        match self.index_of_layer(layer_id) {
            None => None,
            Some(i) => {
                proof {
                    self.lemma_layer_index_unique(layer_id, i as int);
                }
                match &self.sessions[i].shader_path {
                    Some(p) => Some(p.clone()),
                    None => None,
                }
            },
        }
    }

    /// Under well-formedness, a session index holding `layer_id` is the one
    /// `spec_session_for_layer` picks.
    proof fn lemma_layer_index_unique(self, layer_id: u64, i: int)
        requires
            self.wf(),
            0 <= i < self.sessions@.len(),
            self.sessions@[i].layer_id == layer_id,
        ensures
            spec_session_for_layer(self.sessions@, layer_id) == Some(i),
    {
        let chosen = choose|k: int|
            0 <= k < self.sessions@.len() && self.sessions@[k].layer_id == layer_id;
        if chosen != i {
            assert(self.sessions@[chosen].layer_id != self.sessions@[i].layer_id);
        }
    }

    /// Answers an output-discovery notification. When a configuration
    /// document is loaded and does not list this output's name, the output
    /// is skipped and no session is created; a name already registered is
    /// also skipped. Otherwise a fresh unconfigured session is registered
    /// under the name, and the shell is told to attach a background layer
    /// surface sized to the output's reported mode.
    pub fn on_output_discovered(&mut self, identity: OutputIdentity) -> (actions: Vec<GpuAction>)
        requires
            old(self).wf(),
            old(self).next_layer_id < u64::MAX,
        ensures
            final(self).wf(),
            final(self).config == old(self).config,
            final(self).closed == old(self).closed,
            // A session exists for this name afterwards exactly when the
            // configuration lists it (or no document is loaded), or one
            // already existed.
            spec_has_session(final(self).sessions@, identity.name@) <==> spec_in_scope(
                old(self).config,
                identity.name@,
            ) || spec_has_session(old(self).sessions@, identity.name@),
            ({
                let accepted = spec_in_scope(old(self).config, identity.name@)
                    && !spec_has_session(old(self).sessions@, identity.name@);
                if accepted {
                    &&& final(self).sessions@ =~= old(self).sessions@.push(
                        (RenderSession {
                            name: identity.name,
                            layer_id: old(self).next_layer_id,
                            shader_path: spec_shader_path_for(old(self).config, identity.name@),
                            shader: ShaderSource::BuiltIn,
                            configured: false,
                            width: 0,
                            height: 0,
                            frame_index: 0,
                            pipeline_ready: false,
                            uniform_buffer_ready: false,
                            bind_group_ready: false,
                        }),
                    )
                    &&& final(self).next_layer_id == old(self).next_layer_id + 1
                    &&& actions@ =~= seq![
                        (GpuAction::CreateLayerSurface {
                            layer_id: old(self).next_layer_id,
                            name: identity.name,
                            width: identity.width,
                            height: identity.height,
                        }),
                    ]
                } else {
                    &&& *final(self) == *old(self)
                    &&& actions@ =~= Seq::<GpuAction>::empty()
                }
            }),
    {
        if !self.output_in_scope(identity.name.as_str()) {
            return Vec::new();
        }
        if self.has_session(identity.name.as_str()) {
            return Vec::new();
        }
        let shader_path: Option<String> = match &self.config {
            None => None,
            Some(config) => match config.monitor_config(identity.name.as_str()) {
                Some(monitor) => Some(monitor.shader),
                None => None,
            },
        };
        let layer_id = self.next_layer_id;
        self.next_layer_id = layer_id + 1;
        let session = RenderSession::create(identity.name.clone(), layer_id, shader_path);
        self.sessions.push(session);
        proof {
            let last = self.sessions@.len() - 1;
            assert(self.sessions@[last].name@ == identity.name@);
            assert(spec_has_session(self.sessions@, identity.name@));
        }
        let mut actions: Vec<GpuAction> = Vec::new();
        actions.push(
            GpuAction::CreateLayerSurface {
                layer_id,
                name: identity.name,
                width: identity.width,
                height: identity.height,
            },
        );
        actions
    }

    /// Answers a layer configure notification for the session owning
    /// `layer_id`. The reported size is corrected for the output's rotation
    /// (width and height swap on a quarter turn). A configure for an
    /// unknown layer, or for a session that is already configured, is a
    /// window-system protocol violation and is ignored without any state
    /// change — a known limitation: an output that resizes after its
    /// initial configure keeps rendering at the stale size, since rebuilding
    /// a pipeline mid-session is not supported. Otherwise the session
    /// completes its one configuration:
    /// `shader_read` is the text of its shader file when the shell could
    /// read one, and `None` (falling back to the built-in shader) when the
    /// read failed or no file is configured; the shell is told to build the
    /// pipeline, perform the initial draw, and re-arm the frame callback.
    pub fn on_configure(
        &mut self,
        layer_id: u64,
        width: u32,
        height: u32,
        transform: Transform,
        shader_read: Option<String>,
    ) -> (actions: Vec<GpuAction>)
        requires
            old(self).wf(),
            width > 0,
            height > 0,
        ensures
            final(self).wf(),
            final(self).config == old(self).config,
            final(self).closed == old(self).closed,
            final(self).next_layer_id == old(self).next_layer_id,
            ({
                let sessions = old(self).sessions@;
                match spec_session_for_layer(sessions, layer_id) {
                    None => *final(self) == *old(self) && actions@ =~= Seq::<GpuAction>::empty(),
                    Some(i) => if sessions[i].configured {
                        *final(self) == *old(self) && actions@ =~= Seq::<GpuAction>::empty()
                    } else {
                        let size = spec_effective_size(width, height, transform);
                        let shader = match shader_read {
                            Some(text) => ShaderSource::Custom(text),
                            None => ShaderSource::BuiltIn,
                        };
                        let configured = (RenderSession {
                            shader: shader,
                            configured: true,
                            width: size.0,
                            height: size.1,
                            frame_index: spec_next_frame(sessions[i].frame_index),
                            pipeline_ready: true,
                            uniform_buffer_ready: true,
                            bind_group_ready: true,
                            ..sessions[i]
                        });
                        &&& final(self).sessions@ =~= sessions.update(i, configured)
                        &&& actions@.len() == 3
                        &&& actions@[0] == (GpuAction::BuildPipeline {
                            layer_id,
                            width: size.0,
                            height: size.1,
                            shader,
                        })
                        &&& (actions@[1] matches GpuAction::Draw { layer_id: drawn, frame_data }
                            && drawn == layer_id && (frame_data matches Some(block)
                            && block.screen_width == size.0 && block.screen_height == size.1
                            && block.frame_index == configured.frame_index))
                        &&& actions@[2] == (GpuAction::RequestFrameCallback { layer_id })
                    },
                }
            }),
    {
        let found = self.index_of_layer(layer_id);
        let i = match found {
            None => {
                return Vec::new();
            },
            Some(i) => i,
        };
        proof {
            self.lemma_layer_index_unique(layer_id, i as int);
        }
        if self.sessions[i].configured {
            return Vec::new();
        }
        let (effective_width, effective_height) = effective_size(width, height, transform);
        let shader = match shader_read {
            Some(text) => ShaderSource::Custom(text),
            None => ShaderSource::BuiltIn,
        };
        let mut session = self.sessions.remove(i);
        session.configure(effective_width, effective_height, shader.clone());
        let frame_data = session.draw();
        let mut actions: Vec<GpuAction> = Vec::new();
        actions.push(
            GpuAction::BuildPipeline {
                layer_id,
                width: effective_width,
                height: effective_height,
                shader,
            },
        );
        actions.push(GpuAction::Draw { layer_id, frame_data });
        actions.push(GpuAction::RequestFrameCallback { layer_id });
        self.sessions.insert(i, session);
        proof {
            assert(self.sessions@ =~= old(self).sessions@.update(
                i as int,
                self.sessions@[i as int],
            ));
        }
        actions
    }

    /// Records that the pipeline build the shell attempted for this layer
    /// failed (a shader that would not compile). Fatal to this session
    /// only: its resources are dropped together and it stays registered,
    /// unconfigured, drawing the bare background clear. Unknown layers are
    /// ignored.
    pub fn on_pipeline_failure(&mut self, layer_id: u64)
        requires
            old(self).wf(),
        ensures
            final(self).wf(),
            final(self).config == old(self).config,
            final(self).closed == old(self).closed,
            final(self).next_layer_id == old(self).next_layer_id,
            ({
                let sessions = old(self).sessions@;
                match spec_session_for_layer(sessions, layer_id) {
                    None => *final(self) == *old(self),
                    Some(i) => final(self).sessions@ =~= sessions.update(
                        i,
                        (RenderSession {
                            shader: ShaderSource::BuiltIn,
                            configured: false,
                            pipeline_ready: false,
                            uniform_buffer_ready: false,
                            bind_group_ready: false,
                            ..sessions[i]
                        }),
                    ),
                }
            }),
    {
        let found = self.index_of_layer(layer_id);
        let i = match found {
            None => {
                return;
            },
            Some(i) => i,
        };
        proof {
            self.lemma_layer_index_unique(layer_id, i as int);
        }
        let mut session = self.sessions.remove(i);
        session.unconfigure();
        self.sessions.insert(i, session);
        proof {
            assert(self.sessions@ =~= old(self).sessions@.update(
                i as int,
                self.sessions@[i as int],
            ));
        }
    }

    /// Answers a frame callback for the layer: the owning session draws one
    /// frame (its counter moves up by exactly one), and the callback is
    /// re-armed at once so the animation never stalls. Unknown layers are
    /// ignored.
    pub fn on_frame_tick(&mut self, layer_id: u64) -> (actions: Vec<GpuAction>)
        requires
            old(self).wf(),
        ensures
            final(self).wf(),
            final(self).config == old(self).config,
            final(self).closed == old(self).closed,
            final(self).next_layer_id == old(self).next_layer_id,
            ({
                let sessions = old(self).sessions@;
                match spec_session_for_layer(sessions, layer_id) {
                    None => *final(self) == *old(self) && actions@ =~= Seq::<GpuAction>::empty(),
                    Some(i) => {
                        let drawn = (RenderSession {
                            frame_index: spec_next_frame(sessions[i].frame_index),
                            ..sessions[i]
                        });
                        &&& final(self).sessions@ =~= sessions.update(i, drawn)
                        &&& actions@.len() == 2
                        &&& (actions@[0] matches GpuAction::Draw { layer_id: target, frame_data }
                            && target == layer_id && (match frame_data {
                            Some(block) => sessions[i].configured && block.screen_width
                                == sessions[i].width && block.screen_height == sessions[i].height
                                && block.frame_index == drawn.frame_index,
                            None => !sessions[i].configured,
                        }))
                        &&& actions@[1] == (GpuAction::RequestFrameCallback { layer_id })
                    },
                }
            }),
    {
        let found = self.index_of_layer(layer_id);
        let i = match found {
            None => {
                return Vec::new();
            },
            Some(i) => i,
        };
        proof {
            self.lemma_layer_index_unique(layer_id, i as int);
        }
        let mut session = self.sessions.remove(i);
        let frame_data = session.draw();
        let mut actions: Vec<GpuAction> = Vec::new();
        actions.push(GpuAction::Draw { layer_id, frame_data });
        actions.push(GpuAction::RequestFrameCallback { layer_id });
        self.sessions.insert(i, session);
        proof {
            assert(self.sessions@ =~= old(self).sessions@.update(
                i as int,
                self.sessions@[i as int],
            ));
        }
        actions
    }

    /// Answers an output-removal notification: the session registered under
    /// the name is dropped, its surface released strictly before its owning
    /// device. Removing a name with no session is a no-op, never a fault.
    pub fn on_output_removed(&mut self, name: &str) -> (actions: Vec<GpuAction>)
        requires
            old(self).wf(),
        ensures
            final(self).wf(),
            final(self).config == old(self).config,
            final(self).closed == old(self).closed,
            final(self).next_layer_id == old(self).next_layer_id,
            !spec_has_session(final(self).sessions@, name@),
            !spec_has_session(old(self).sessions@, name@) ==> *final(self) == *old(self)
                && actions@ =~= Seq::<GpuAction>::empty(),
            spec_has_session(old(self).sessions@, name@) ==> exists|i: int|
                {
                    &&& 0 <= i < old(self).sessions@.len()
                    &&& (#[trigger] old(self).sessions@[i]).name@ == name@
                    &&& final(self).sessions@ =~= old(self).sessions@.remove(i)
                    &&& actions@ =~= spec_release_actions(seq![old(self).sessions@[i].layer_id])
                },
    {
        let found = self.index_of_name(name);
        let i = match found {
            None => {
                return Vec::new();
            },
            Some(i) => i,
        };
        let session = self.sessions.remove(i);
        let mut actions: Vec<GpuAction> = Vec::new();
        actions.push(GpuAction::ReleaseSurface { layer_id: session.layer_id });
        actions.push(GpuAction::ReleaseDevice { layer_id: session.layer_id });
        proof {
            assert(actions@ =~= spec_release_actions(seq![old(self).sessions@[i as int].layer_id]));
            assert forall|j: int|
                0 <= j < self.sessions@.len() implies (#[trigger] self.sessions@[j]).name@
                != name@ by {
                if j < i {
                    assert(self.sessions@[j] == old(self).sessions@[j]);
                } else {
                    assert(self.sessions@[j] == old(self).sessions@[j + 1]);
                }
            }
        }
        actions
    }

    /// Records the window system's close notification; the event loop polls
    /// this once per iteration and shuts down when it is set.
    pub fn on_closed(&mut self)
        ensures
            *final(self) == (OutputRegistry { closed: true, ..*old(self) }),
    {
        self.closed = true;
    }

    /// Whether the window system has asked the registry to close.
    pub fn is_closed(&self) -> (closed: bool)
        ensures
            closed == self.closed,
    {
        self.closed
    }

    /// Tears every session down, in registry order, each one releasing its
    /// surface strictly before its owning device, and leaves the registry
    /// empty. Run when the event loop exits, normally or toward a restart.
    pub fn shutdown(&mut self) -> (actions: Vec<GpuAction>)
        requires
            old(self).wf(),
        ensures
            final(self).wf(),
            final(self).sessions@.len() == 0,
            final(self).config == old(self).config,
            final(self).closed == old(self).closed,
            final(self).next_layer_id == old(self).next_layer_id,
            actions@ =~= spec_release_actions(
                old(self).sessions@.map_values(|s: RenderSession| s.layer_id),
            ),
    {
        let ghost all_ids = old(self).sessions@.map_values(|s: RenderSession| s.layer_id);
        let mut actions: Vec<GpuAction> = Vec::new();
        let mut i: usize = 0;
        while i < self.sessions.len()
            invariant
                i <= self.sessions.len(),
                self.sessions@ == old(self).sessions@,
                all_ids == old(self).sessions@.map_values(|s: RenderSession| s.layer_id),
                actions@ =~= spec_release_actions(all_ids.subrange(0, i as int)),
            decreases self.sessions.len() - i,
        {
            let layer_id = self.sessions[i].layer_id;
            actions.push(GpuAction::ReleaseSurface { layer_id });
            actions.push(GpuAction::ReleaseDevice { layer_id });
            proof {
                crate::action::lemma_release_actions_push(
                    all_ids.subrange(0, i as int),
                    layer_id,
                );
                assert(all_ids.subrange(0, i as int).push(layer_id) =~= all_ids.subrange(
                    0,
                    i as int + 1,
                ));
            }
            i = i + 1;
        }
        proof {
            assert(all_ids.subrange(0, all_ids.len() as int) =~= all_ids);
        }
        self.sessions.clear();
        actions
    }
}

} // verus!
