use vstd::prelude::*;
use crate::camera;
use crate::geometry;
use crate::materials::Material;
use crate::vec3::Vec3;

verus! {

/// A scene object's sphere: a geometric shape together with the
/// material that scatters rays hitting it.
#[derive(Clone, Copy, Debug, PartialEq, Eq, Structural)]
pub struct Sphere {
    pub shape: geometry::Sphere,
    pub material: Material,
}

impl Sphere {
    pub open spec fn wf(self) -> bool {
        self.shape.wf() && self.material.wf()
    }

    /// A sphere object; scene data must be well formed.
    pub fn new(center: Vec3, radius: i64, material: Material) -> (k: ObjectKind)
        requires
            radius != 0,
            material.wf(),
        ensures
            k == ObjectKind::Sphere(
                Sphere { shape: geometry::Sphere { center, radius }, material },
            ),
    {
        ObjectKind::Sphere(Sphere { shape: geometry::Sphere { center, radius }, material })
    }

    /// Where the sphere stands at the ray's sampled instant when it
    /// moves with the given velocity: the base center displaced by
    /// velocity times time; the radius is unchanged.
    pub fn at_time(&self, time: i64, velocity: Vec3) -> (s: geometry::Sphere)
        requires
            velocity.scale_fits(time as int),
            self.shape.center.sum_fits(velocity.vscale(time as int)),
        ensures
            s.center == self.shape.center.vsum(velocity.vscale(time as int)),
            s.radius == self.shape.radius,
    {
        geometry::Sphere {
            center: self.shape.center.added(&velocity.scaled(time)),
            radius: self.shape.radius,
        }
    }
}

/// The closed set of object shapes a scene can hold.
#[derive(Clone, Copy, Debug, PartialEq, Eq, Structural)]
pub enum ObjectKind {
    Sphere(Sphere),
}

/// A scene object: a shape with its material, and a linear velocity for
/// motion blur (zero for a static object).
#[derive(Clone, Copy, Debug, PartialEq, Eq, Structural)]
pub struct Object {
    pub kind: ObjectKind,
    pub velocity: Vec3,
}

impl Object {
    pub open spec fn wf(self) -> bool {
        match self.kind {
            ObjectKind::Sphere(s) => s.wf(),
        }
    }

    /// A static object.
    pub fn new(kind: ObjectKind) -> (o: Object)
        ensures
            o == (Object { kind, velocity: Vec3 { x: 0, y: 0, z: 0 } }),
    {
        Object { kind, velocity: Vec3 { x: 0, y: 0, z: 0 } }
    }

    /// An object moving with the given velocity.
    pub fn new_moving(kind: ObjectKind, velocity: Vec3) -> (o: Object)
        ensures
            o == (Object { kind, velocity }),
    {
        Object { kind, velocity }
    }

    pub fn velocity(&self) -> (v: Vec3)
        ensures
            v == self.velocity,
    {
        self.velocity
    }

    pub fn set_velocity(&mut self, velocity: Vec3)
        ensures
            *final(self) == (Object { velocity, ..*old(self) }),
    {
        self.velocity = velocity;
    }

    /// The material of the object's shape.
    pub fn get_material(&self) -> (m: &Material)
        ensures
            *m == self.material_spec(),
    {
        match &self.kind {
            ObjectKind::Sphere(s) => &s.material,
        }
    }

    /// The material of the object's shape.
    pub open spec fn material_spec(self) -> Material {
        match self.kind {
            ObjectKind::Sphere(s) => s.material,
        }
    }

    /// Whether the object's scene data is well formed.
    pub fn is_wf(&self) -> (r: bool)
        ensures
            r == self.wf(),
    {
        match &self.kind {
            ObjectKind::Sphere(s) => s.shape.radius != 0 && s.material.is_wf(),
        }
    }
}

/// A scene: the camera parameters and the objects a ray can hit.
/// Insertion order of objects does not affect which hit is nearest,
/// only the deterministic tie-break (the earlier object wins ties).
#[derive(Clone, Debug, PartialEq, Eq)]
pub struct Scene {
    pub camera: camera::Parameters,
    pub objects: Vec<Object>,
}

impl Scene {
    /// Every object's scene data is well formed.
    pub open spec fn wf(self) -> bool {
        forall|i: int| 0 <= i < self.objects@.len() ==> (#[trigger] self.objects@[i]).wf()
    }

    /// An empty scene with the default camera.
    pub fn new() -> (s: Scene)
        ensures
            s.camera == camera::Parameters::default_spec(),
            s.objects@.len() == 0,
            s.wf(),
    {
        Scene { camera: camera::Parameters::new(), objects: Vec::new() }
    }

    pub fn set_camera(self, camera: camera::Parameters) -> (s: Scene)
        ensures
            s.camera == camera,
            s.objects@ == self.objects@,
    {
        Scene { camera, ..self }
    }

    /// Adds a well-formed object to the scene.
    pub fn add_object(self, object: Object) -> (s: Scene)
        requires
            object.wf(),
        ensures
            s.camera == self.camera,
            s.objects@ == self.objects@.push(object),
            self.wf() ==> s.wf(),
    {
        let mut objects = self.objects;
        objects.push(object);
        Scene { camera: self.camera, objects }
    }

    /// Whether every object's scene data is well formed.
    pub fn is_wf(&self) -> (r: bool)
        ensures
            r == self.wf(),
    {
        let mut i: usize = 0;
        while i < self.objects.len()
            invariant
                i <= self.objects@.len(),
                forall|j: int| 0 <= j < i ==> (#[trigger] self.objects@[j]).wf(),
            decreases self.objects@.len() - i,
        {
            if !self.objects[i].is_wf() {
                return false;
            }
            i = i + 1;
        }
        true
    }
}

/// The index the nearest-hit scan reports: a hit exists there, no hit
/// is strictly nearer, and every earlier object's hit is strictly
/// farther — the standard closest-so-far scan, where the first object
/// attaining the minimum wins.
pub open spec fn is_first_minimum(hits: Seq<Option<u64>>, i: int) -> bool {
    &&& 0 <= i < hits.len()
    &&& hits[i] is Some
    &&& forall|j: int| 0 <= j < hits.len() && (#[trigger] hits[j]) is Some ==> hits[i].unwrap()
        <= hits[j].unwrap()
    &&& forall|j: int| 0 <= j < i && (#[trigger] hits[j]) is Some ==> hits[j].unwrap()
        > hits[i].unwrap()
}

/// The nearest-hit scan over the per-object hit distances of one ray,
/// each in any order-preserving scalar encoding, `None` where the
/// object was missed. Returns the object whose hit is nearest, the
/// earliest such object on a tie, and `None` when every object was
/// missed.
pub fn closest_hit(hits: &Vec<Option<u64>>) -> (r: Option<usize>)
    ensures
        r is None <==> (forall|j: int| 0 <= j < hits@.len() ==> !((#[trigger] hits@[j]) is Some)),
        r matches Some(i) ==> is_first_minimum(hits@, i as int),
{
    let mut best: Option<(usize, u64)> = None;
    let mut j: usize = 0;
    while j < hits.len()
        invariant
            j <= hits@.len(),
            best is None ==> forall|k: int| 0 <= k < j ==> !((#[trigger] hits@[k]) is Some),
            best matches Some((i, l)) ==> {
                &&& 0 <= i < j
                &&& hits@[i as int] == Some(l)
                &&& forall|k: int|
                    0 <= k < j && (#[trigger] hits@[k]) is Some ==> l <= hits@[k].unwrap()
                &&& forall|k: int|
                    0 <= k < i && (#[trigger] hits@[k]) is Some ==> hits@[k].unwrap() > l
            },
        decreases hits@.len() - j,
    {
        if let Some(l) = hits[j] {
            match best {
                None => {
                    best = Some((j, l));
                },
                Some((_, best_l)) => {
                    if l < best_l {
                        best = Some((j, l));
                    }
                },
            }
        }
        j = j + 1;
    }
    match best {
        None => None,
        Some((i, _)) => Some(i),
    }
}

} // verus!
