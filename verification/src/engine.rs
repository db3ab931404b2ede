//! The handle that owns the opaque render engine instance.
//!
//! The engine itself is an outside capability: the surrounding application
//! constructs it, performs the actual render pass, and hands the outcome
//! back.  This handle keeps the engine-facing state the bridge must get
//! right: the surface size, the accepted style, and the documented quirk
//! that a render before the first `set_camera` produces nothing.

use vstd::prelude::*;
use vstd::string::StringSliceAdditionalSpecFns;
use crate::camera::Camera;
use crate::errors::{EngineInitError, StyleError};
use crate::frame::FrameBuffer;
use crate::style_url::{is_valid_style_url, spec_valid_style_url};

verus! {

/// The engine-facing state: surface size, cache location, the camera once
/// one was set, and the most recently accepted style URL.
#[derive(Debug)]
pub struct RenderEngineHandle {
    pub width: u32,
    pub height: u32,
    /// Where the engine keeps its tile/style cache; opaque to this
    /// subsystem, handed through at construction.
    pub cache_path: Option<String>,
    /// `None` until the first `set_camera`; a render before that returns
    /// no frame.
    pub camera: Option<Camera>,
    /// The most recently accepted style URL; a rejected one leaves the
    /// previous value in place.
    pub style_url: Option<String>,
}

impl RenderEngineHandle {
    /// A usable surface: at least one pixel in each direction.
    pub open spec fn wf(self) -> bool {
        &&& 1 <= self.width
        &&& 1 <= self.height
    }

    /// The state a freshly created handle is in.
    pub open spec fn spec_fresh(width: u32, height: u32, cache_path: Option<String>) -> RenderEngineHandle {
        RenderEngineHandle { width, height, cache_path, camera: None, style_url: None }
    }

    /// Creates the handle.  Any nonzero size succeeds; a zero width or
    /// height is the one construction-time failure.
    pub fn create(width: u32, height: u32, cache_path: Option<String>) -> (r: Result<
        RenderEngineHandle,
        EngineInitError,
    >)
        ensures
            r is Ok <==> (1 <= width && 1 <= height),
            r matches Ok(h) ==> h == RenderEngineHandle::spec_fresh(width, height, cache_path)
                && h.wf(),
            r is Err ==> r == Err::<RenderEngineHandle, EngineInitError>(EngineInitError::ZeroSize),
    {
        if width >= 1 && height >= 1 {
            Ok(RenderEngineHandle { width, height, cache_path, camera: None, style_url: None })
        } else {
            Err(EngineInitError::ZeroSize)
        }
    }

    /// Accepts a style request if the URL parses, and records it; a
    /// rejected URL changes nothing, the previous style remains active.
    /// Acceptance says nothing about completion: that arrives later as a
    /// lifecycle event.
    pub fn load_style(&mut self, url: &str) -> (r: Result<(), StyleError>)
        ensures
            r is Ok <==> spec_valid_style_url(url.spec_bytes()),
            r is Ok ==> (final(self).style_url matches Some(s) && s@ == url@),
            r is Ok ==> final(self).width == old(self).width && final(self).height == old(
                self,
            ).height && final(self).cache_path == old(self).cache_path && final(self).camera
                == old(self).camera,
            r is Err ==> *final(self) == *old(self) && r == Err::<(), StyleError>(
                StyleError::InvalidUrl,
            ),
            final(self).wf() == old(self).wf(),
    {
        if is_valid_style_url(url) {
            self.style_url = Some(url.to_owned());
            Ok(())
        } else {
            Err(StyleError::InvalidUrl)
        }
    }

    /// Points the camera.  Always succeeds; the first call enables
    /// rendering, later calls change the viewpoint.
    pub fn set_camera(&mut self, camera: Camera)
        ensures
            *final(self) == (RenderEngineHandle { camera: Some(camera), ..*old(self) }),
    {
        self.camera = Some(camera);
    }

    /// What a render pass delivers, given what the engine composed this
    /// time: nothing before the camera is set (the engine's documented
    /// quirk), nothing when the engine had nothing new or the scene does
    /// not fit the surface, and the scene otherwise.
    pub open spec fn spec_render_gate(self, scene: Option<FrameBuffer>) -> Option<FrameBuffer> {
        match scene {
            None => None,
            Some(fb) => if self.camera is Some && fb.width == self.width && fb.height
                == self.height && fb.wf() {
                Some(fb)
            } else {
                None
            },
        }
    }

    /// One render pass.  `scene` is what the engine composed for this call,
    /// if anything; an engine-side render error arrives here as `None` and
    /// is never a panic.  Before the first `set_camera` the pass is a
    /// no-op that returns no frame.
    pub fn render_once(&self, scene: Option<FrameBuffer>) -> (r: Option<FrameBuffer>)
        ensures
            r == self.spec_render_gate(scene),
    {
        match scene {
            None => None,
            Some(fb) => {
                if self.camera.is_some() && fb.width == self.width && fb.height == self.height
                    && fb.is_wf() {
                    Some(fb)
                } else {
                    None
                }
            },
        }
    }
}

/// The UI hands sizes down as raw numbers; a zero becomes the smallest
/// usable surface dimension.
pub fn clamp_dimension(v: u32) -> (r: u32)
    ensures
        r == if v == 0 { 1u32 } else { v },
        1 <= r,
{
    if v == 0 {
        1
    } else {
        v
    }
}

/// A freshly created engine has no camera, so its first render pass
/// returns no frame, whatever the engine may have offered.
pub proof fn lemma_create_then_render_is_none(
    width: u32,
    height: u32,
    cache_path: Option<String>,
    scene: Option<FrameBuffer>,
)
    requires
        1 <= width,
        1 <= height,
    ensures
        RenderEngineHandle::spec_fresh(width, height, cache_path).wf(),
        RenderEngineHandle::spec_fresh(width, height, cache_path).camera is None,
        RenderEngineHandle::spec_fresh(width, height, cache_path).spec_render_gate(scene) is None,
{
}

} // verus!
