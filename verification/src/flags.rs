//! The lifecycle record that engine callbacks write and the poll API reads.

use vstd::prelude::*;

verus! {

/// The three flags the bridge accumulates between polls.  Callback handlers
/// are the only writers apart from the drain operation, which clears
/// `frame_updated` on read.
#[derive(Clone, Copy, Debug, PartialEq, Eq, Structural)]
pub struct LifecycleFlags {
    /// The engine finished loading the current style.
    pub style_loaded: bool,
    /// The engine reports no pending tile loads or composition.
    pub map_idle: bool,
    /// A frame was produced since the last drain.
    pub frame_updated: bool,
}

/// One lifecycle callback of the render engine, as an event value.  The
/// bridge registers exactly these four at construction.
#[derive(Clone, Copy, Debug, PartialEq, Eq, Structural)]
pub enum EngineEvent {
    /// The engine begins loading a map, e.g. because the style URL changed.
    WillStartLoadingMap,
    /// The current style finished loading.
    DidFinishLoadingStyle,
    /// Loading the map failed; the style is not usable.
    DidFailLoadingMap,
    /// No further tile loads or composition are pending.
    DidBecomeIdle,
}

impl LifecycleFlags {
    /// The cleared record: nothing loaded, not idle, no frame pending.
    pub open spec fn spec_clear() -> LifecycleFlags {
        LifecycleFlags { style_loaded: false, map_idle: false, frame_updated: false }
    }

    pub fn new() -> (r: LifecycleFlags)
        ensures
            r == LifecycleFlags::spec_clear(),
    {
        LifecycleFlags { style_loaded: false, map_idle: false, frame_updated: false }
    }

    /// What one callback does to the record.
    pub open spec fn spec_apply(self, event: EngineEvent) -> LifecycleFlags {
        match event {
            EngineEvent::WillStartLoadingMap => (LifecycleFlags {
                style_loaded: false,
                map_idle: false,
                ..self
            }),
            EngineEvent::DidFinishLoadingStyle => (LifecycleFlags { style_loaded: true, ..self }),
            EngineEvent::DidFailLoadingMap => (LifecycleFlags { style_loaded: false, ..self }),
            EngineEvent::DidBecomeIdle => (LifecycleFlags { map_idle: true, ..self }),
        }
    }

    /// Folds one callback into the record.
    pub fn apply(&mut self, event: EngineEvent)
        ensures
            *final(self) == old(self).spec_apply(event),
    {
        match event {
            EngineEvent::WillStartLoadingMap => {
                self.style_loaded = false;
                self.map_idle = false;
            },
            EngineEvent::DidFinishLoadingStyle => {
                self.style_loaded = true;
            },
            EngineEvent::DidFailLoadingMap => {
                self.style_loaded = false;
            },
            EngineEvent::DidBecomeIdle => {
                self.map_idle = true;
            },
        }
    }
}

/// A loading announcement resets both the style flag and the idle flag,
/// whatever the record held before; the pending-frame flag is untouched.
pub proof fn lemma_will_start_resets(flags: LifecycleFlags)
    ensures
        !flags.spec_apply(EngineEvent::WillStartLoadingMap).style_loaded,
        !flags.spec_apply(EngineEvent::WillStartLoadingMap).map_idle,
        flags.spec_apply(EngineEvent::WillStartLoadingMap).frame_updated == flags.frame_updated,
{
}

/// A load failure always leaves the style flag false, even if a style had
/// been loaded before; the other flags are untouched.
pub proof fn lemma_fail_loading_clears_style(flags: LifecycleFlags)
    ensures
        !flags.spec_apply(EngineEvent::DidFailLoadingMap).style_loaded,
        flags.spec_apply(EngineEvent::DidFailLoadingMap).map_idle == flags.map_idle,
        flags.spec_apply(EngineEvent::DidFailLoadingMap).frame_updated == flags.frame_updated,
{
}

} // verus!
