use vstd::prelude::*;
use crate::scalar::UNIT;
use crate::vec3::Vec3;

verus! {

/// A camera parameter that failed validation when the camera was
/// compiled.
#[derive(Clone, Copy, Debug, PartialEq, Eq, Structural)]
pub enum InvalidParameter {
    /// The field of view must be positive.
    FieldOfView,
    /// The aperture radius must be nonnegative.
    ApertureRadius,
    /// The shutter must close no earlier than it opens.
    ShutterTime,
}

/// User-facing camera parameters. Compiling them into a ray generator
/// involves trigonometry and normalization, which the rendering front
/// end performs; the verified core owns the data and the validation
/// rules that must pass before a render may start.
#[derive(Clone, Copy, Debug, PartialEq, Eq, Structural)]
pub struct Parameters {
    pub origin: Vec3,
    pub up_direction: Vec3,
    /// The point looked at; when absent the camera looks straight ahead
    /// along the world forward axis.
    pub look_at: Option<Vec3>,
    /// Field of view in fixed-point degrees; must be positive.
    pub field_of_view: i64,
    /// Distance of the focus plane; scales the view plane.
    pub focus_distance: i64,
    /// Lens radius for depth of field; zero means a pinhole camera.
    pub aperture_radius: i64,
    /// Start of the exposure interval sampled for motion blur.
    pub shutter_open_time: i64,
    /// End of the exposure interval; never before the start.
    pub shutter_close_time: i64,
}

impl Parameters {
    /// The first validation rule the parameters break, checked in the
    /// order field of view, aperture, shutter interval; `None` when all
    /// rules hold.
    pub open spec fn first_invalid(self) -> Option<InvalidParameter> {
        if self.field_of_view <= 0 {
            Some(InvalidParameter::FieldOfView)
        } else if self.aperture_radius < 0 {
            Some(InvalidParameter::ApertureRadius)
        } else if self.shutter_close_time < self.shutter_open_time {
            Some(InvalidParameter::ShutterTime)
        } else {
            None
        }
    }

    /// All validation rules hold: positive field of view, nonnegative
    /// aperture, shutter closing no earlier than it opens.
    pub open spec fn all_valid(self) -> bool {
        self.first_invalid() is None
    }

    pub fn new() -> (r: Parameters)
        ensures
            r == Parameters::default_spec(),
    {
        Parameters {
            origin: Vec3 { x: 0, y: 0, z: 0 },
            up_direction: Vec3 { x: 0, y: 0, z: UNIT },
            look_at: None,
            field_of_view: 90 * UNIT,
            focus_distance: UNIT,
            aperture_radius: 0,
            shutter_open_time: 0,
            shutter_close_time: 0,
        }
    }

    /// The default camera: at the origin, upright, looking straight
    /// ahead, a 90 degree field of view, focus at distance one, a
    /// pinhole lens and an instantaneous shutter.
    pub open spec fn default_spec() -> Parameters {
        Parameters {
            origin: Vec3 { x: 0, y: 0, z: 0 },
            up_direction: Vec3 { x: 0, y: 0, z: UNIT as i64 },
            look_at: None,
            field_of_view: (90 * UNIT) as i64,
            focus_distance: UNIT as i64,
            aperture_radius: 0,
            shutter_open_time: 0,
            shutter_close_time: 0,
        }
    }

    pub fn set_origin(self, position: Vec3) -> (r: Parameters)
        ensures
            r == (Parameters { origin: position, ..self }),
    {
        Parameters { origin: position, ..self }
    }

    pub fn set_up_direction(self, normal: Vec3) -> (r: Parameters)
        ensures
            r == (Parameters { up_direction: normal, ..self }),
    {
        Parameters { up_direction: normal, ..self }
    }

    pub fn set_look_at(self, target: Option<Vec3>) -> (r: Parameters)
        ensures
            r == (Parameters { look_at: target, ..self }),
    {
        Parameters { look_at: target, ..self }
    }

    pub fn set_field_of_view(self, degrees: i64) -> (r: Parameters)
        ensures
            r == (Parameters { field_of_view: degrees, ..self }),
    {
        Parameters { field_of_view: degrees, ..self }
    }

    pub fn set_focus_distance(self, distance: i64) -> (r: Parameters)
        ensures
            r == (Parameters { focus_distance: distance, ..self }),
    {
        Parameters { focus_distance: distance, ..self }
    }

    pub fn set_aperture_size(self, radius: i64) -> (r: Parameters)
        ensures
            r == (Parameters { aperture_radius: radius, ..self }),
    {
        Parameters { aperture_radius: radius, ..self }
    }

    pub fn set_shutter_open_time(self, time: i64) -> (r: Parameters)
        ensures
            r == (Parameters { shutter_open_time: time, ..self }),
    {
        Parameters { shutter_open_time: time, ..self }
    }

    pub fn set_shutter_close_time(self, time: i64) -> (r: Parameters)
        ensures
            r == (Parameters { shutter_close_time: time, ..self }),
    {
        Parameters { shutter_close_time: time, ..self }
    }

    /// Checks every validation rule, reporting the first broken one.
    ///
    /// A compiled camera may only be built, and a render may only start,
    /// once this returns `Ok`.
    pub fn validate(&self) -> (r: Result<(), InvalidParameter>)
        ensures
            r matches Err(e) ==> self.first_invalid() == Some(e),
            r is Ok <==> self.all_valid(),
    {
        if self.field_of_view <= 0 {
            return Err(InvalidParameter::FieldOfView);
        }
        if self.aperture_radius < 0 {
            return Err(InvalidParameter::ApertureRadius);
        }
        if self.shutter_close_time < self.shutter_open_time {
            return Err(InvalidParameter::ShutterTime);
        }
        Ok(())
    }
}

impl Default for Parameters {
    fn default() -> (r: Parameters)
        ensures
            r == Parameters::default_spec(),
    {
        Parameters::new()
    }
}

} // verus!
