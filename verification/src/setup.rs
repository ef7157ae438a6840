use vstd::prelude::*;
use crate::parameters::Parameters;
use crate::scene::Scene;

verus! {

/// What can go wrong while loading or saving a setup file.
#[derive(Clone, Copy, Debug, PartialEq, Eq, Structural)]
pub enum Error {
    /// The setup file could not be opened.
    OpeningFile,
    /// The setup file could not be created.
    CreatingFile,
    /// The setup could not be serialized.
    Serializing,
    /// The setup file's contents could not be deserialized.
    Deserializing,
}

/// A complete render setup: the parameters and the scene. Reading and
/// writing it as a structured text file is the loader's business; the
/// verified core owns the data and its validity rules.
#[derive(Clone, Debug, PartialEq, Eq)]
pub struct Setup {
    pub parameters: Parameters,
    pub scene: Scene,
}

impl Setup {
    /// The setup's data is fit to render: the parameters are
    /// renderable, the camera parameters are valid, and every object
    /// is well formed.
    pub open spec fn wf(self) -> bool {
        &&& self.parameters.renderable()
        &&& self.scene.camera.all_valid()
        &&& self.scene.wf()
    }

    /// The default setup: default parameters, an empty scene.
    pub fn new() -> (s: Setup)
        ensures
            s.parameters == (Parameters {
                image_width: 1024,
                image_height: 576,
                antialias_samples: 4,
                scatter_limit: 8,
                debug_mode: None,
            }),
            s.scene.objects@.len() == 0,
            s.wf(),
    {
        Setup { parameters: Parameters::default(), scene: Scene::new() }
    }

    /// Whether the setup's data is fit to render.
    pub fn is_wf(&self) -> (r: bool)
        ensures
            r == self.wf(),
    {
        self.parameters.is_renderable() && (match self.scene.camera.validate() {
            Ok(_) => true,
            Err(_) => false,
        }) && self.scene.is_wf()
    }
}

} // verus!
