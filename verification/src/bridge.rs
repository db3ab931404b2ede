//! The render-state bridge: the mediator between the engine's callbacks and
//! the UI's poll-and-drain loop.
//!
//! The bridge owns the engine handle and the lifecycle flags, folds each
//! lifecycle event into the flags, and exposes the per-tick polling cycle
//! `tick` / `has_update` / `take_frame`.  Events may keep arriving after
//! the bridge was torn down (a resize destroys it while a callback is in
//! flight); a torn-down bridge swallows them without touching anything.

use vstd::prelude::*;
use vstd::string::StringSliceAdditionalSpecFns;
use crate::camera::Camera;
use crate::engine::RenderEngineHandle;
use crate::errors::{EngineInitError, FlyToError, StyleError, TakeFrameError};
use crate::flags::{EngineEvent, LifecycleFlags};
use crate::frame::FrameBuffer;
use crate::locations::{lookup_location, spec_lookup_location};
use crate::style_url::spec_valid_style_url;

verus! {

/// Where the bridge stands in its lifecycle: no camera yet, camera set,
/// style load requested, style loaded.  Rendering needs no state of its
/// own beyond the pending-frame flag.
#[derive(Clone, Copy, Debug, PartialEq, Eq, Structural)]
pub enum Phase {
    Uninitialized,
    CameraSet,
    StyleLoading,
    StyleLoaded,
}

/// How a tick decides whether to render: continuously on every tick, or
/// only when a render was explicitly requested since the last one.
#[derive(Clone, Copy, Debug, PartialEq, Eq, Structural)]
pub enum RenderMode {
    Continuous,
    Static,
}

/// The composition root: engine handle, lifecycle flags, the cached frame
/// awaiting its drain, and the phase of the load state machine.
#[derive(Debug)]
pub struct RenderBridge {
    pub engine: RenderEngineHandle,
    pub flags: LifecycleFlags,
    /// The frame cached by the last successful tick, until it is drained.
    pub frame: Option<FrameBuffer>,
    pub phase: Phase,
    pub mode: RenderMode,
    /// Only meaningful in static mode: a render is due.
    pub render_requested: bool,
    /// Cleared by teardown; late callbacks observe this and do nothing.
    pub alive: bool,
}

impl RenderBridge {
    /// The bridge's invariant: the engine surface is usable, a raised
    /// pending-frame flag is backed by a cached frame that fits the
    /// surface, the phase agrees with the camera and the accepted style,
    /// and a torn-down bridge holds nothing at all.
    pub open spec fn wf(self) -> bool {
        &&& self.engine.wf()
        &&& (self.flags.frame_updated ==> self.frame is Some)
        &&& (self.frame matches Some(fb) ==> fb.wf() && fb.width == self.engine.width
            && fb.height == self.engine.height)
        &&& ((self.phase == Phase::Uninitialized) <==> (self.engine.camera is None))
        &&& ((self.phase == Phase::StyleLoading || self.phase == Phase::StyleLoaded)
            ==> self.engine.style_url is Some)
        &&& (!self.alive ==> self.flags == LifecycleFlags::spec_clear() && self.frame is None
            && !self.render_requested)
    }

    /// The state a freshly created bridge is in.
    pub open spec fn spec_fresh(
        width: u32,
        height: u32,
        cache_path: Option<String>,
        mode: RenderMode,
    ) -> RenderBridge {
        RenderBridge {
            engine: RenderEngineHandle::spec_fresh(width, height, cache_path),
            flags: LifecycleFlags::spec_clear(),
            frame: None,
            phase: Phase::Uninitialized,
            mode,
            render_requested: false,
            alive: true,
        }
    }

    /// Creates the bridge, one per window, with the engine surface at the
    /// given size and the cache at the given path.  Any nonzero size
    /// succeeds.
    pub fn create(width: u32, height: u32, cache_path: Option<String>, mode: RenderMode) -> (r:
        Result<RenderBridge, EngineInitError>)
        ensures
            r is Ok <==> (1 <= width && 1 <= height),
            r matches Ok(b) ==> b == RenderBridge::spec_fresh(width, height, cache_path, mode)
                && b.wf(),
            r is Err ==> r == Err::<RenderBridge, EngineInitError>(EngineInitError::ZeroSize),
    {
        match RenderEngineHandle::create(width, height, cache_path) {
            Ok(engine) => Ok(
                RenderBridge {
                    engine,
                    flags: LifecycleFlags::new(),
                    frame: None,
                    phase: Phase::Uninitialized,
                    mode,
                    render_requested: false,
                    alive: true,
                },
            ),
            Err(e) => Err(e),
        }
    }

    /// Camera placement: the engine takes it unconditionally, and the
    /// first one moves the bridge out of its uninitialized phase.
    pub open spec fn spec_set_camera(self, camera: Camera) -> RenderBridge {
        RenderBridge {
            engine: RenderEngineHandle { camera: Some(camera), ..self.engine },
            phase: if self.phase == Phase::Uninitialized {
                Phase::CameraSet
            } else {
                self.phase
            },
            ..self
        }
    }

    /// Points the camera.  Always succeeds; must be called once before any
    /// render produces output.
    pub fn set_camera(&mut self, camera: Camera)
        requires
            old(self).alive,
            old(self).wf(),
        ensures
            *final(self) == old(self).spec_set_camera(camera),
            final(self).wf(),
    {
        self.engine.set_camera(camera);
        if self.phase == Phase::Uninitialized {
            self.phase = Phase::CameraSet;
        }
    }

    /// Requests a style.  A parseable URL is accepted: the engine starts
    /// loading it asynchronously, the style flag is reset until the
    /// corresponding event fires, and the phase moves to loading.  An
    /// unparseable URL is rejected and nothing changes: the previous style
    /// remains active.
    pub fn set_style(&mut self, url: &str) -> (r: Result<(), StyleError>)
        requires
            old(self).alive,
            old(self).wf(),
            old(self).phase != Phase::Uninitialized,
        ensures
            r is Ok <==> spec_valid_style_url(url.spec_bytes()),
            r is Ok ==> (final(self).engine.style_url matches Some(s) && s@ == url@),
            r is Ok ==> !final(self).flags.style_loaded && final(self).phase
                == Phase::StyleLoading,
            r is Ok ==> final(self).engine.width == old(self).engine.width
                && final(self).engine.height == old(self).engine.height
                && final(self).engine.camera == old(self).engine.camera
                && final(self).engine.cache_path == old(self).engine.cache_path,
            r is Ok ==> final(self).flags.map_idle == old(self).flags.map_idle
                && final(self).flags.frame_updated == old(self).flags.frame_updated
                && final(self).frame == old(self).frame
                && final(self).mode == old(self).mode
                && final(self).render_requested == old(self).render_requested
                && final(self).alive,
            r is Err ==> *final(self) == *old(self) && r == Err::<(), StyleError>(
                StyleError::InvalidUrl,
            ),
            final(self).wf(),
    {
        match self.engine.load_style(url) {
            Ok(()) => {
                self.flags.style_loaded = false;
                self.phase = Phase::StyleLoading;
                Ok(())
            },
            Err(e) => Err(e),
        }
    }

    /// Whether the coming tick should attempt a render: always in
    /// continuous mode, only on request in static mode.
    pub open spec fn spec_should_render(self) -> bool {
        self.mode == RenderMode::Continuous || self.render_requested
    }

    /// Asks the next tick to render; meaningful in static mode, where
    /// ticks are otherwise no-ops.
    pub fn request_render(&mut self)
        requires
            old(self).alive,
            old(self).wf(),
        ensures
            *final(self) == (RenderBridge { render_requested: true, ..*old(self) }),
            final(self).wf(),
    {
        self.render_requested = true;
    }

    /// What one tick does: if a render is due, gate what the engine
    /// composed; a delivered frame is cached and raises the pending-frame
    /// flag, anything else leaves the bridge as it was (skip this tick,
    /// try again next tick).
    pub open spec fn spec_tick(self, scene: Option<FrameBuffer>) -> RenderBridge {
        if !self.spec_should_render() {
            self
        } else {
            match self.engine.spec_render_gate(scene) {
                Some(fb) => RenderBridge {
                    frame: Some(fb),
                    flags: LifecycleFlags { frame_updated: true, ..self.flags },
                    render_requested: false,
                    ..self
                },
                None => RenderBridge { render_requested: false, ..self },
            }
        }
    }

    /// One UI frame's poll: at most one render pass.  `scene` is whatever
    /// the engine composed for this tick, if anything; the caller performs
    /// the actual render call and hands the outcome in.  Never blocks
    /// beyond that single pass, and a tick that delivers nothing is not an
    /// error.
    pub fn tick(&mut self, scene: Option<FrameBuffer>)
        requires
            old(self).alive,
            old(self).wf(),
        ensures
            *final(self) == old(self).spec_tick(scene),
            final(self).wf(),
    {
        let due: bool = match self.mode {
            RenderMode::Continuous => true,
            RenderMode::Static => self.render_requested,
        };
        if due {
            self.render_requested = false;
            match self.engine.render_once(scene) {
                Some(fb) => {
                    self.frame = Some(fb);
                    self.flags.frame_updated = true;
                },
                None => {},
            }
        }
    }

    /// Non-destructive peek at the pending-frame flag.
    pub fn has_update(&self) -> (r: bool)
        ensures
            r == self.flags.frame_updated,
    {
        self.flags.frame_updated
    }

    /// What a drain returns: the cached frame when one is pending, the
    /// caller-contract error otherwise.
    pub open spec fn spec_take_result(self) -> Result<FrameBuffer, TakeFrameError> {
        if self.flags.frame_updated {
            Ok(self.frame->Some_0)
        } else {
            Err(TakeFrameError::NoFrameAvailable)
        }
    }

    /// The state a drain leaves behind: flag cleared and cache emptied on
    /// success, everything untouched otherwise.
    pub open spec fn spec_take_state(self) -> RenderBridge {
        if self.flags.frame_updated {
            RenderBridge {
                frame: None,
                flags: LifecycleFlags { frame_updated: false, ..self.flags },
                ..self
            }
        } else {
            self
        }
    }

    /// Drains the pending frame: returns the cached buffer and atomically
    /// clears the pending-frame flag.  Without a pending update this is a
    /// caller error and returns `NoFrameAvailable` — never stale data.
    pub fn take_frame(&mut self) -> (r: Result<FrameBuffer, TakeFrameError>)
        requires
            old(self).alive,
            old(self).wf(),
        ensures
            r == old(self).spec_take_result(),
            *final(self) == old(self).spec_take_state(),
            final(self).wf(),
    {
        if self.flags.frame_updated {
            self.flags.frame_updated = false;
            match self.frame.take() {
                Some(fb) => Ok(fb),
                None => Err(TakeFrameError::NoFrameAvailable),
            }
        } else {
            Err(TakeFrameError::NoFrameAvailable)
        }
    }

    /// What one lifecycle event does to a live bridge: the flags fold it
    /// in, and the load state machine follows it — a finished load leaves
    /// the loading phase for loaded, a failure falls back to the
    /// camera-set phase, a starting reload re-enters loading.  A torn-down
    /// bridge is left exactly as it is.
    pub open spec fn spec_handle_event(self, event: EngineEvent) -> RenderBridge {
        if !self.alive {
            self
        } else {
            RenderBridge {
                flags: self.flags.spec_apply(event),
                phase: match event {
                    EngineEvent::WillStartLoadingMap => if self.phase == Phase::StyleLoaded {
                        Phase::StyleLoading
                    } else {
                        self.phase
                    },
                    EngineEvent::DidFinishLoadingStyle => if self.phase == Phase::StyleLoading {
                        Phase::StyleLoaded
                    } else {
                        self.phase
                    },
                    EngineEvent::DidFailLoadingMap => if self.phase == Phase::StyleLoading {
                        Phase::CameraSet
                    } else {
                        self.phase
                    },
                    EngineEvent::DidBecomeIdle => self.phase,
                },
                ..self
            }
        }
    }

    /// Delivers one lifecycle event.  Callbacks fire from the engine's own
    /// context, possibly after the bridge was torn down, so this takes no
    /// precondition and never panics: a dead bridge swallows the event.
    pub fn handle_event(&mut self, event: EngineEvent)
        ensures
            *final(self) == old(self).spec_handle_event(event),
            old(self).wf() ==> final(self).wf(),
    {
        if self.alive {
            self.flags.apply(event);
            match event {
                EngineEvent::WillStartLoadingMap => {
                    if self.phase == Phase::StyleLoaded {
                        self.phase = Phase::StyleLoading;
                    }
                },
                EngineEvent::DidFinishLoadingStyle => {
                    if self.phase == Phase::StyleLoading {
                        self.phase = Phase::StyleLoaded;
                    }
                },
                EngineEvent::DidFailLoadingMap => {
                    if self.phase == Phase::StyleLoading {
                        self.phase = Phase::CameraSet;
                    }
                },
                EngineEvent::DidBecomeIdle => {},
            }
        }
    }

    /// The state teardown leaves behind: dead, with a cleared flag set and
    /// no cached frame, so that anything still observing the bridge sees
    /// nothing to act on.
    pub open spec fn spec_tear_down(self) -> RenderBridge {
        RenderBridge {
            alive: false,
            flags: LifecycleFlags::spec_clear(),
            frame: None,
            render_requested: false,
            ..self
        }
    }

    /// Tears the bridge down, as a resize or shutdown does.  In-flight
    /// callbacks that fire afterwards observe a cleared, dead flag set and
    /// do nothing.
    pub fn tear_down(&mut self)
        ensures
            *final(self) == old(self).spec_tear_down(),
            old(self).wf() ==> final(self).wf(),
    {
        self.alive = false;
        self.flags = LifecycleFlags::new();
        self.frame = None;
        self.render_requested = false;
    }

    /// Moves the camera center to a named place of the fixed table,
    /// keeping the rest of the viewpoint (or starting from the initial one
    /// if no camera was set yet).  An unknown name changes nothing and
    /// says so.
    pub open spec fn spec_fly_to_camera(self, lat_e4: i64, lon_e4: i64) -> Camera {
        match self.engine.camera {
            Some(c) => Camera { lat_e4, lon_e4, ..c },
            None => Camera { lat_e4, lon_e4, ..Camera::spec_origin() },
        }
    }

    pub fn fly_to(&mut self, name: &str) -> (r: Result<(), FlyToError>)
        requires
            old(self).alive,
            old(self).wf(),
        ensures
            r is Ok <==> spec_lookup_location(name) is Some,
            spec_lookup_location(name) matches Some(pos) ==> *final(self)
                == old(self).spec_set_camera(old(self).spec_fly_to_camera(pos.lat_e4, pos.lon_e4)),
            spec_lookup_location(name) is None ==> *final(self) == *old(self) && r == Err::<
                (),
                FlyToError,
            >(FlyToError::LocationNotFound),
            final(self).wf(),
    {
        match lookup_location(name) {
            Some(pos) => {
                let target = match self.engine.camera {
                    Some(c) => Camera { lat_e4: pos.lat_e4, lon_e4: pos.lon_e4, ..c },
                    None => Camera {
                        lat_e4: pos.lat_e4,
                        lon_e4: pos.lon_e4,
                        ..Camera::origin()
                    },
                };
                self.set_camera(target);
                Ok(())
            },
            None => Err(FlyToError::LocationNotFound),
        }
    }

    /// Whether the bridge is still the live one; teardown clears this.
    pub fn is_alive(&self) -> (r: bool)
        ensures
            r == self.alive,
    {
        self.alive
    }

    /// Non-destructive peek at the style flag.
    pub fn style_loaded(&self) -> (r: bool)
        ensures
            r == self.flags.style_loaded,
    {
        self.flags.style_loaded
    }

    /// Non-destructive peek at the idle flag, for callers that wait for
    /// idle before reading a still image.
    pub fn map_idle(&self) -> (r: bool)
        ensures
            r == self.flags.map_idle,
    {
        self.flags.map_idle
    }

    /// Where the load state machine stands.
    pub fn current_phase(&self) -> (r: Phase)
        ensures
            r == self.phase,
    {
        self.phase
    }

    /// The camera as last set, if any.
    pub fn camera(&self) -> (r: Option<Camera>)
        ensures
            r == self.engine.camera,
    {
        self.engine.camera
    }
}

/// A tick the engine answers with a fitting scene always raises the
/// pending-frame flag and caches exactly that scene: the polling side
/// cannot miss a delivered frame.
pub proof fn lemma_tick_with_scene_updates(b: RenderBridge, fb: FrameBuffer)
    requires
        b.wf(),
        b.alive,
        b.spec_should_render(),
        b.engine.camera is Some,
        fb.wf(),
        fb.width == b.engine.width,
        fb.height == b.engine.height,
    ensures
        b.spec_tick(Some(fb)).flags.frame_updated,
        b.spec_tick(Some(fb)).frame == Some(fb),
{
}

/// Draining is idempotent: after an update, the first drain succeeds and
/// clears the flag, and a second drain without an intervening successful
/// tick reports no frame instead of handing out anything stale.
pub proof fn lemma_take_frame_drains(b: RenderBridge)
    requires
        b.wf(),
        b.flags.frame_updated,
    ensures
        b.spec_take_result() is Ok,
        !b.spec_take_state().flags.frame_updated,
        b.spec_take_state().spec_take_result() == Err::<FrameBuffer, TakeFrameError>(
            TakeFrameError::NoFrameAvailable,
        ),
        b.spec_take_state().spec_take_state() == b.spec_take_state(),
{
}

/// A loading announcement resets the style and idle flags of a live
/// bridge, whatever they held before.
pub proof fn lemma_will_start_observed(b: RenderBridge)
    requires
        b.alive,
    ensures
        !b.spec_handle_event(EngineEvent::WillStartLoadingMap).flags.style_loaded,
        !b.spec_handle_event(EngineEvent::WillStartLoadingMap).flags.map_idle,
{
}

/// A load failure leaves the style flag of a live bridge false, even if a
/// style had been loaded before.
pub proof fn lemma_fail_loading_observed(b: RenderBridge)
    requires
        b.alive,
    ensures
        !b.spec_handle_event(EngineEvent::DidFailLoadingMap).flags.style_loaded,
{
}

/// An event that fires on a torn-down bridge mutates nothing at all.
pub proof fn lemma_event_after_teardown_is_noop(b: RenderBridge, event: EngineEvent)
    requires
        !b.alive,
    ensures
        b.spec_handle_event(event) == b,
{
}

/// Teardown silences callbacks for good: whatever event arrives afterwards
/// leaves the torn-down state exactly as it is.
pub proof fn lemma_teardown_silences_callbacks(b: RenderBridge, event: EngineEvent)
    ensures
        !b.spec_tear_down().alive,
        b.spec_tear_down().spec_handle_event(event) == b.spec_tear_down(),
{
}

} // verus!
