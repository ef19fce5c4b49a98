use vstd::prelude::*;

use crate::ids::fresh_id_value;
use crate::shotliner_document::{ScreenplayCoordinate, ShotLine, ShotLineView, TagID};
use crate::store::DocError;

verus! {

/// A production department that a Tag may apply to.
#[derive(Debug, PartialEq, Eq, Hash)]
pub enum Department {
    Production,
    Art,
    Wardrobe,
    HairMakeup,
    Camera,
    Sound,
    Electric,
    LightingGrip,
    Props,
    PracticalFX,
    VisualFX,
    Stunts,
    Animals,
    Vehicles,
    Dance,
    Choreography,
    Pyrotechnics,
    Armory,
    Intimacy,
    Craft,
    Transportation,
    Miscellaneous,
    Other(String),
}

impl Clone for Department {
    fn clone(&self) -> (r: Self)
        ensures
            r == *self,
    {
        match self {
            Department::Production => Department::Production,
            Department::Art => Department::Art,
            Department::Wardrobe => Department::Wardrobe,
            Department::HairMakeup => Department::HairMakeup,
            Department::Camera => Department::Camera,
            Department::Sound => Department::Sound,
            Department::Electric => Department::Electric,
            Department::LightingGrip => Department::LightingGrip,
            Department::Props => Department::Props,
            Department::PracticalFX => Department::PracticalFX,
            Department::VisualFX => Department::VisualFX,
            Department::Stunts => Department::Stunts,
            Department::Animals => Department::Animals,
            Department::Vehicles => Department::Vehicles,
            Department::Dance => Department::Dance,
            Department::Choreography => Department::Choreography,
            Department::Pyrotechnics => Department::Pyrotechnics,
            Department::Armory => Department::Armory,
            Department::Intimacy => Department::Intimacy,
            Department::Craft => Department::Craft,
            Department::Transportation => Department::Transportation,
            Department::Miscellaneous => Department::Miscellaneous,
            Department::Other(s) => Department::Other(s.clone()),
        }
    }
}

/// An opaque, strongly-typed identifier for a Shot, generated fresh on
/// creation and never recycled.
#[derive(Clone, Copy, Debug, PartialEq, Eq, Hash, Structural)]
pub struct ShotID(pub u128);

impl ShotID {
    /// A fresh random identifier.
    pub fn new() -> Self {
        ShotID(fresh_id_value())
    }
}

/// The angle of a shot.
#[derive(Clone, Copy, Debug)]
pub enum ShotType {
    ExtremeWide,
    Wide,
    Medium,
    CloseUp,
    ExtremeCloseUp,
    Insert,
    Other,
}

/// The movement of a shot.
#[derive(Clone, Copy, Debug)]
pub enum ShotSubType {
    Trucking,
    Moving,
    Dolly,
    WhipPan,
    Panning,
    Other,
}

/// Represents a specific, discrete position to place the camera.
#[derive(Debug)]
pub struct ShotSetup {
    pub index: u64,
    pub id: String,
}

impl View for ShotSetup {
    type V = ShotSetup;

    open spec fn view(&self) -> ShotSetup {
        *self
    }
}

impl Clone for ShotSetup {
    fn clone(&self) -> (r: Self)
        ensures
            r == *self,
    {
        ShotSetup { index: self.index, id: self.id.clone() }
    }
}

/// The human-facing number of a shot.
#[derive(Debug)]
pub struct ShotNumber(pub String);

impl Clone for ShotNumber {
    fn clone(&self) -> (r: Self)
        ensures
            r == *self,
    {
        ShotNumber(self.0.clone())
    }
}

/// Technical camera metadata.
#[derive(Clone, Copy, Debug)]
pub struct CameraMetadata {
    lens_mm: u64,
}

#[allow(non_camel_case_types)]
#[derive(Clone, Copy, Debug, PartialEq, Eq, Structural)]
pub struct _other_shot_id(u128);

impl _other_shot_id {
    pub fn new() -> Self {
        _other_shot_id(fresh_id_value())
    }
}

/// The camera and staging metadata attached to a Shot: angle, movement,
/// setup, and tag references.
#[derive(Debug)]
pub struct ShotComposition {
    pub shot_type: ShotType,
    pub subtype: Option<ShotSubType>,
    pub setup: Option<ShotSetup>,
    pub camera_metadata: Option<CameraMetadata>,
    pub tags: Vec<TagID>,
}

/// The mathematical reading of a ShotComposition: the same fields, with
/// the tag-reference list read as a sequence.
#[verifier::ext_equal]
pub struct ShotCompositionView {
    pub shot_type: ShotType,
    pub subtype: Option<ShotSubType>,
    pub setup: Option<ShotSetup>,
    pub camera_metadata: Option<CameraMetadata>,
    pub tags: Seq<TagID>,
}

impl View for ShotComposition {
    type V = ShotCompositionView;

    open spec fn view(&self) -> ShotCompositionView {
        ShotCompositionView {
            shot_type: self.shot_type,
            subtype: self.subtype,
            setup: self.setup,
            camera_metadata: self.camera_metadata,
            tags: self.tags@,
        }
    }
}

impl Clone for ShotComposition {
    fn clone(&self) -> (r: Self)
        ensures
            r@ == self@,
    {
        let r = ShotComposition {
            shot_type: self.shot_type,
            subtype: self.subtype,
            setup: match &self.setup {
                Some(s) => Some(s.clone()),
                None => None,
            },
            camera_metadata: self.camera_metadata,
            tags: clone_tag_ids(&self.tags),
        };
        proof {
            assert(r@ =~= self@);
        }
        r
    }
}

/// An element-for-element copy of a tag-reference list.
fn clone_tag_ids(v: &Vec<TagID>) -> (r: Vec<TagID>)
    ensures
        r@ == v@,
{
    let mut r: Vec<TagID> = Vec::new();
    let n = v.len();
    let mut i: usize = 0;
    while i < n
        invariant
            n == v@.len(),
            i <= n,
            r@ == v@.take(i as int),
        decreases n - i,
    {
        r.push(v[i]);
        proof {
            assert(r@ =~= v@.take(i + 1));
        }
        i = i + 1;
    }
    proof {
        assert(v@.take(n as int) =~= v@);
    }
    r
}

impl ShotComposition {
    /// A default composition: a Wide shot with nothing else set.
    pub fn new() -> (r: Self)
        ensures
            r.shot_type is Wide,
            r.subtype is None,
            r.setup is None,
            r.camera_metadata is None,
            r.tags@ == Seq::<TagID>::empty(),
    {
        ShotComposition {
            shot_type: ShotType::Wide,
            subtype: None,
            setup: None,
            camera_metadata: None,
            tags: Vec::new(),
        }
    }

    /// Replaces the shot angle.
    pub fn shot_type(&mut self, shot_type: ShotType)
        ensures
            final(self).shot_type == shot_type,
            final(self).subtype == old(self).subtype,
            final(self).setup == old(self).setup,
            final(self).camera_metadata == old(self).camera_metadata,
            final(self).tags == old(self).tags,
    {
        self.shot_type = shot_type;
    }

    /// Replaces the shot movement.
    pub fn subtype(&mut self, subtype: Option<ShotSubType>)
        ensures
            final(self).subtype == subtype,
            final(self).shot_type == old(self).shot_type,
            final(self).setup == old(self).setup,
            final(self).camera_metadata == old(self).camera_metadata,
            final(self).tags == old(self).tags,
    {
        self.subtype = subtype;
    }

    /// Replaces the camera setup.
    pub fn setup(&mut self, setup: Option<ShotSetup>)
        ensures
            final(self).setup == setup,
            final(self).shot_type == old(self).shot_type,
            final(self).subtype == old(self).subtype,
            final(self).camera_metadata == old(self).camera_metadata,
            final(self).tags == old(self).tags,
    {
        self.setup = setup;
    }

    /// Replaces the camera metadata.
    pub fn camera_metadata(&mut self, camera_metadata: Option<CameraMetadata>)
        ensures
            final(self).camera_metadata == camera_metadata,
            final(self).shot_type == old(self).shot_type,
            final(self).subtype == old(self).subtype,
            final(self).setup == old(self).setup,
            final(self).tags == old(self).tags,
    {
        self.camera_metadata = camera_metadata;
    }

    /// Appends a tag reference; succeeds iff the reference is not
    /// already present, and fails with `DuplicateID` otherwise, leaving
    /// the composition unchanged.
    pub fn add_tag(&mut self, tag: &TagID) -> (r: Result<(), DocError>)
        ensures
            r is Ok <==> !old(self).tags@.contains(*tag),
            r is Ok ==> final(self).tags@ == old(self).tags@.push(*tag),
            r is Err ==> r == Result::<(), DocError>::Err(DocError::DuplicateID) && *final(self)
                == *old(self),
            final(self).shot_type == old(self).shot_type,
            final(self).subtype == old(self).subtype,
            final(self).setup == old(self).setup,
            final(self).camera_metadata == old(self).camera_metadata,
    {
        if tag_list_contains(&self.tags, tag) {
            Err(DocError::DuplicateID)
        } else {
            self.tags.push(*tag);
            Ok(())
        }
    }

    /// Drops every occurrence of a tag reference; succeeds iff the
    /// reference was present, and fails with `NotFound` otherwise,
    /// leaving the composition unchanged.
    pub fn remove_tag(&mut self, tag: &TagID) -> (r: Result<(), DocError>)
        ensures
            r is Ok <==> old(self).tags@.contains(*tag),
            r is Ok ==> final(self).tags@ == old(self).tags@.filter(
                |x: TagID| x.0 != tag.0,
            ),
            r is Err ==> r == Result::<(), DocError>::Err(DocError::NotFound) && *final(self)
                == *old(self),
            final(self).shot_type == old(self).shot_type,
            final(self).subtype == old(self).subtype,
            final(self).setup == old(self).setup,
            final(self).camera_metadata == old(self).camera_metadata,
    {
        if tag_list_contains(&self.tags, tag) {
            let kept = retain_other_tags(&self.tags, tag);
            self.tags = kept;
            Ok(())
        } else {
            Err(DocError::NotFound)
        }
    }
}

/// Whether a tag-reference list holds the given reference.
fn tag_list_contains(v: &Vec<TagID>, tag: &TagID) -> (r: bool)
    ensures
        r == v@.contains(*tag),
{
    let n = v.len();
    let mut i: usize = 0;
    while i < n
        invariant
            n == v@.len(),
            i <= n,
            forall|j: int| 0 <= j < i ==> v@[j] != *tag,
        decreases n - i,
    {
        if v[i].0 == tag.0 {
            proof {
                assert(v@[i as int] == *tag);
            }
            return true;
        }
        i = i + 1;
    }
    false
}

/// The references of a list whose value differs from the given one, in
/// original relative order.
fn retain_other_tags(v: &Vec<TagID>, tag: &TagID) -> (r: Vec<TagID>)
    ensures
        r@ == v@.filter(|x: TagID| x.0 != tag.0),
{
    let ghost pred = |x: TagID| x.0 != tag.0;
    let mut r: Vec<TagID> = Vec::new();
    let n = v.len();
    let mut i: usize = 0;
    while i < n
        invariant
            n == v@.len(),
            i <= n,
            r@ == v@.take(i as int).filter(pred),
            pred == (|x: TagID| x.0 != tag.0),
        decreases n - i,
    {
        proof {
            assert(v@.take(i + 1).drop_last() =~= v@.take(i as int));
            assert(v@.take(i + 1) =~= v@.take(i as int).push(v@[i as int]));
            v@.take(i as int).lemma_filter_push(v@[i as int], pred);
        }
        if v[i].0 != tag.0 {
            r.push(v[i]);
        }
        i = i + 1;
    }
    proof {
        assert(v@.take(n as int) =~= v@);
    }
    r
}

/// A Shot: an optional human-facing shot number, a primary composition,
/// optional per-coordinate sub-compositions, and an optional embedded
/// shot-line range marking where in the script the shot occurs.
#[derive(Debug)]
pub struct Shot {
    pub shot_number: Option<ShotNumber>,
    pub primary_composition: ShotComposition,
    pub sub_compositions: Option<Vec<SubComposition>>,
    pub shotline: Option<ShotLine>,
}

/// A sub-composition attached to one screenplay coordinate of a Shot.
#[derive(Debug)]
pub struct SubComposition {
    pub coordinate: ScreenplayCoordinate,
    pub composition: ShotComposition,
}

/// The mathematical reading of a SubComposition.
#[verifier::ext_equal]
pub struct SubCompositionView {
    pub coordinate: ScreenplayCoordinate,
    pub composition: ShotCompositionView,
}

impl View for SubComposition {
    type V = SubCompositionView;

    open spec fn view(&self) -> SubCompositionView {
        SubCompositionView { coordinate: self.coordinate, composition: self.composition@ }
    }
}

impl Clone for SubComposition {
    fn clone(&self) -> (r: Self)
        ensures
            r@ == self@,
    {
        SubComposition { coordinate: self.coordinate, composition: self.composition.clone() }
    }
}

/// The mathematical reading of a Shot.
#[verifier::ext_equal]
pub struct ShotView {
    pub shot_number: Option<ShotNumber>,
    pub primary_composition: ShotCompositionView,
    pub sub_compositions: Option<Seq<SubCompositionView>>,
    pub shotline: Option<ShotLineView>,
}

impl View for Shot {
    type V = ShotView;

    open spec fn view(&self) -> ShotView {
        ShotView {
            shot_number: self.shot_number,
            primary_composition: self.primary_composition@,
            sub_compositions: match self.sub_compositions {
                Some(v) => Some(v@.map_values(|c: SubComposition| c@)),
                None => None,
            },
            shotline: match self.shotline {
                Some(sl) => Some(sl@),
                None => None,
            },
        }
    }
}

impl Clone for Shot {
    fn clone(&self) -> (r: Self)
        ensures
            r@ == self@,
    {
        let r = Shot {
            shot_number: match &self.shot_number {
                Some(n) => Some(n.clone()),
                None => None,
            },
            primary_composition: self.primary_composition.clone(),
            sub_compositions: match &self.sub_compositions {
                Some(v) => Some(clone_sub_compositions(v)),
                None => None,
            },
            shotline: match &self.shotline {
                Some(sl) => Some(sl.clone()),
                None => None,
            },
        };
        proof {
            assert(r@ =~~= self@);
        }
        r
    }
}

/// An element-for-element copy of a sub-composition list, preserving
/// each element's mathematical reading.
fn clone_sub_compositions(v: &Vec<SubComposition>) -> (r: Vec<SubComposition>)
    ensures
        r@.map_values(|c: SubComposition| c@) == v@.map_values(|c: SubComposition| c@),
{
    let mut r: Vec<SubComposition> = Vec::new();
    let n = v.len();
    let mut i: usize = 0;
    while i < n
        invariant
            n == v@.len(),
            i <= n,
            r@.len() == i,
            forall|j: int| 0 <= j < i ==> (#[trigger] r@[j])@ == v@[j]@,
        decreases n - i,
    {
        r.push(v[i].clone());
        i = i + 1;
    }
    proof {
        assert(r@.map_values(|c: SubComposition| c@) =~= v@.map_values(|c: SubComposition| c@));
    }
    r
}

impl Shot {
    /// A default Shot: no number, a default Wide composition, no
    /// sub-compositions and no shot-line.
    pub fn new() -> (r: Self)
        ensures
            r.shot_number is None,
            r.primary_composition.shot_type is Wide,
            r.primary_composition.subtype is None,
            r.primary_composition.setup is None,
            r.primary_composition.camera_metadata is None,
            r.primary_composition.tags@ == Seq::<TagID>::empty(),
            r.sub_compositions is None,
            r.shotline is None,
    {
        Shot {
            shot_number: None,
            primary_composition: ShotComposition::new(),
            sub_compositions: None,
            shotline: None,
        }
    }
}

} // verus!
