use vstd::prelude::*;

use crate::commands::{CommandHistory, CommandHistoryStatus, Intent};
use crate::ids::fresh_id_value;
use crate::production::{Department, Shot, ShotID, ShotSetup, ShotView};
use crate::store::{DocError, EntityStore};

verus! {

/// Relies on screenplay_doc_parser_rs::screenplay_document::ScreenplayDocument,
/// the parsed screenplay structure that an annotated document composes.
/// The core never reads inside it; it is carried as an opaque value.
#[verifier::external_type_specification]
#[verifier::external_body]
pub struct ExScreenplayDocument(screenplay_doc_parser_rs::screenplay_document::ScreenplayDocument);

/// A position in the screenplay: page, then line, then an optional
/// sub-element index within the line. Treated as an opaque comparable
/// value by the core; range endpoints are inclusive.
#[derive(Clone, Copy, Debug, PartialEq, Eq)]
pub struct ScreenplayCoordinate {
    pub page: usize,
    pub line: usize,
    pub element: Option<u64>,
}

/// An inclusive range of screenplay coordinates.
#[derive(Clone, Copy, Debug, PartialEq, Eq)]
pub struct CoordinateRange {
    pub start: ScreenplayCoordinate,
    pub end: ScreenplayCoordinate,
}

/// Reserved for merge-forward across new drafts of the screenplay.
#[derive(Clone)]
pub struct SmartScreenplayCoordinate {}

/// A Tag is a finite Screenplay Element or range of Elements, which
/// corresponds to one or more Departments.
#[derive(Debug, PartialEq, Eq, Hash)]
pub struct Tag {
    pub string: String,
    pub departments: Vec<Department>,
}

/// The mathematical reading of a Tag: the display string and the
/// department list read as a sequence.
#[verifier::ext_equal]
pub struct TagView {
    pub string: String,
    pub departments: Seq<Department>,
}

impl View for Tag {
    type V = TagView;

    open spec fn view(&self) -> TagView {
        TagView { string: self.string, departments: self.departments@ }
    }
}

impl Clone for Tag {
    fn clone(&self) -> (r: Self)
        ensures
            r@ == self@,
    {
        let r = Tag { string: self.string.clone(), departments: clone_departments(
            &self.departments,
        ) };
        proof {
            assert(r@ =~= self@);
        }
        r
    }
}

/// An element-for-element copy of a department list.
fn clone_departments(v: &Vec<Department>) -> (r: Vec<Department>)
    ensures
        r@ == v@,
{
    let mut r: Vec<Department> = Vec::new();
    let n = v.len();
    let mut i: usize = 0;
    while i < n
        invariant
            n == v@.len(),
            i <= n,
            r@.len() == i,
            forall|j: int| 0 <= j < i ==> r@[j] == v@[j],
        decreases n - i,
    {
        r.push(v[i].clone());
        i = i + 1;
    }
    proof {
        assert(r@ =~= v@);
    }
    r
}

/// An opaque, strongly-typed identifier for a Tag.
#[derive(Clone, Copy, Debug, PartialEq, Eq, Hash, Structural)]
pub struct TagID(pub u128);

impl TagID {
    /// A fresh random identifier.
    pub fn new() -> Self {
        TagID(fresh_id_value())
    }
}

/// A region of the screenplay (origin and endpoint coordinates,
/// inclusive) plus a list of TagID references. The list is not
/// guaranteed consistent: a TagID may outlive its Tag's deletion, and
/// consistency is restored lazily on read.
#[derive(Clone, Debug)]
pub struct TaggedElement {
    pub ocurrances: Vec<CoordinateRange>,
    pub origin: ScreenplayCoordinate,
    pub endpoint: ScreenplayCoordinate,
    pub tags: Vec<TagID>,
}

/// The mathematical reading of a TaggedElement.
#[verifier::ext_equal]
pub struct TaggedElementView {
    pub ocurrances: Seq<CoordinateRange>,
    pub origin: ScreenplayCoordinate,
    pub endpoint: ScreenplayCoordinate,
    pub tags: Seq<TagID>,
}

impl View for TaggedElement {
    type V = TaggedElementView;

    open spec fn view(&self) -> TaggedElementView {
        TaggedElementView {
            ocurrances: self.ocurrances@,
            origin: self.origin,
            endpoint: self.endpoint,
            tags: self.tags@,
        }
    }
}

/// An opaque, strongly-typed identifier for a TaggedElement.
#[derive(Clone, Copy, Debug, PartialEq, Eq, Hash, Structural)]
pub struct TaggedElementID(pub u128);

impl TaggedElementID {
    /// A fresh random identifier.
    pub fn new() -> Self {
        TaggedElementID(fresh_id_value())
    }
}

/// A named group of tags.
#[derive(Clone, Debug)]
pub struct Group {
    string: String,
    tags: Vec<Tag>,
}

/// The mathematical reading of a Group.
#[verifier::ext_equal]
pub struct GroupView {
    pub string: String,
    pub tags: Seq<TagView>,
}

impl View for Group {
    type V = GroupView;

    closed spec fn view(&self) -> GroupView {
        GroupView { string: self.string, tags: self.tags@.map_values(|t: Tag| t@) }
    }
}

/// An opaque, strongly-typed identifier for a Group.
#[derive(Clone, Copy, Debug, PartialEq, Eq, Hash, Structural)]
pub struct GroupID(pub u128);

impl GroupID {
    /// A fresh random identifier.
    pub fn new() -> Self {
        GroupID(fresh_id_value())
    }
}

/// The range of the screenplay that one shot covers, and the lines in
/// that range left unfilmed.
#[derive(Debug)]
pub struct ShotLine {
    pub start: ScreenplayCoordinate,
    pub end: ScreenplayCoordinate,
    pub unfilmed_lines: Option<Vec<ScreenplayCoordinate>>,
}

/// The mathematical reading of a ShotLine.
#[verifier::ext_equal]
pub struct ShotLineView {
    pub start: ScreenplayCoordinate,
    pub end: ScreenplayCoordinate,
    pub unfilmed_lines: Option<Seq<ScreenplayCoordinate>>,
}

impl View for ShotLine {
    type V = ShotLineView;

    open spec fn view(&self) -> ShotLineView {
        ShotLineView {
            start: self.start,
            end: self.end,
            unfilmed_lines: match self.unfilmed_lines {
                Some(v) => Some(v@),
                None => None,
            },
        }
    }
}

impl Clone for ShotLine {
    fn clone(&self) -> (r: Self)
        ensures
            r@ == self@,
    {
        let r = ShotLine {
            start: self.start,
            end: self.end,
            unfilmed_lines: match &self.unfilmed_lines {
                Some(v) => Some(clone_coordinates(v)),
                None => None,
            },
        };
        proof {
            assert(r@ =~~= self@);
        }
        r
    }
}

/// An element-for-element copy of a coordinate list.
fn clone_coordinates(v: &Vec<ScreenplayCoordinate>) -> (r: Vec<ScreenplayCoordinate>)
    ensures
        r@ == v@,
{
    let mut r: Vec<ScreenplayCoordinate> = Vec::new();
    let n = v.len();
    let mut i: usize = 0;
    while i < n
        invariant
            n == v@.len(),
            i <= n,
            r@.len() == i,
            forall|j: int| 0 <= j < i ==> r@[j] == v@[j],
        decreases n - i,
    {
        r.push(v[i]);
        i = i + 1;
    }
    proof {
        assert(r@ =~= v@);
    }
    r
}

impl ShotLine {
    /// A shot-line over the given inclusive range, with no unfilmed
    /// lines recorded.
    pub fn new(start: ScreenplayCoordinate, end: ScreenplayCoordinate) -> (r: ShotLine)
        ensures
            r.start == start,
            r.end == end,
            r.unfilmed_lines is None,
    {
        ShotLine { start, end, unfilmed_lines: None }
    }
}

/// The document's mutable annotation state: one identity-unique store
/// per entity kind.
pub struct AnnotationMap {
    pub shotlines: EntityStore<Shot>,
    pub tags: EntityStore<Tag>,
    pub groups: EntityStore<Group>,
    pub tagged_elements: EntityStore<TaggedElement>,
    pub shot_setups: EntityStore<ShotSetup>,
}

/// The mathematical reading of an AnnotationMap: one finite map per
/// entity kind, from 128-bit key to the value's reading.
#[verifier::ext_equal]
pub struct AnnotationModel {
    pub shotlines: Map<u128, ShotView>,
    pub tags: Map<u128, TagView>,
    pub groups: Map<u128, GroupView>,
    pub tagged_elements: Map<u128, TaggedElementView>,
    pub shot_setups: Map<u128, ShotSetup>,
}

impl View for AnnotationMap {
    type V = AnnotationModel;

    open spec fn view(&self) -> AnnotationModel {
        AnnotationModel {
            shotlines: self.shotlines@,
            tags: self.tags@,
            groups: self.groups@,
            tagged_elements: self.tagged_elements@,
            shot_setups: self.shot_setups@,
        }
    }
}

/// The empty annotation model.
pub open spec fn empty_annotation_model() -> AnnotationModel {
    AnnotationModel {
        shotlines: Map::empty(),
        tags: Map::empty(),
        groups: Map::empty(),
        tagged_elements: Map::empty(),
        shot_setups: Map::empty(),
    }
}

impl AnnotationMap {
    /// An annotation map with every store empty.
    pub fn new() -> (r: Self)
        ensures
            r@ == empty_annotation_model(),
    {
        let r = AnnotationMap {
            shotlines: EntityStore::new(),
            tags: EntityStore::new(),
            groups: EntityStore::new(),
            tagged_elements: EntityStore::new(),
            shot_setups: EntityStore::new(),
        };
        proof {
            assert(r@ =~= empty_annotation_model());
        }
        r
    }
}

/// The tag-reference resolver: given a TaggedElement's stored tag-ID
/// list and the current Tag store, the subset of IDs still present, in
/// original relative order. Every read path that surfaces tags calls
/// this; it never mutates the Tag store.
pub fn resolve_tag_references(stored: &Vec<TagID>, tags_store: &EntityStore<Tag>) -> (r: Vec<
    TagID,
>)
    ensures
        r@ == stored@.filter(|t: TagID| tags_store@.contains_key(t.0)),
{
    let ghost pred = |t: TagID| tags_store@.contains_key(t.0);
    let mut r: Vec<TagID> = Vec::new();
    let n = stored.len();
    let mut i: usize = 0;
    while i < n
        invariant
            n == stored@.len(),
            i <= n,
            r@ == stored@.take(i as int).filter(pred),
            pred == (|t: TagID| tags_store@.contains_key(t.0)),
        decreases n - i,
    {
        proof {
            assert(stored@.take(i + 1).drop_last() =~= stored@.take(i as int));
            assert(stored@.take(i + 1) =~= stored@.take(i as int).push(stored@[i as int]));
            stored@.take(i as int).lemma_filter_push(stored@[i as int], pred);
        }
        if tags_store.contains(stored[i].0) {
            r.push(stored[i]);
        }
        i = i + 1;
    }
    proof {
        assert(stored@.take(n as int) =~= stored@);
    }
    r
}

/// Composes an immutable screenplay structure with the mutable
/// annotation state and an optional command history; the unit external
/// callers operate on.
pub struct ShotlinerDoc {
    pub screenplay: screenplay_doc_parser_rs::screenplay_document::ScreenplayDocument,
    pub command_history: Option<CommandHistory>,
    pub annotation_map: AnnotationMap,
}

impl ShotlinerDoc {
    /// Well-formedness: the command history, where one is installed,
    /// is well-formed.
    pub open spec fn wf(&self) -> bool {
        match self.command_history {
            Some(h) => h.wf(),
            None => true,
        }
    }

    /// A document over the given screenplay, with empty annotations
    /// and no command history installed.
    pub fn new(
        screenplay: screenplay_doc_parser_rs::screenplay_document::ScreenplayDocument,
    ) -> (r: Self)
        ensures
            r.wf(),
            r.screenplay == screenplay,
            r.command_history is None,
            r.annotation_map@ == empty_annotation_model(),
    {
        ShotlinerDoc { screenplay, command_history: None, annotation_map: AnnotationMap::new() }
    }

    /// Adds a tagged element under a caller-supplied ID; succeeds iff
    /// the ID is absent, and fails with `DuplicateID` otherwise.
    pub fn add_tagged_element(&mut self, id: TaggedElementID, new_tagged_element: TaggedElement)
        -> (r: Result<(), DocError>)
        ensures
            r is Ok <==> !old(self).annotation_map.tagged_elements@.contains_key(id.0),
            r is Ok ==> final(self).annotation_map.tagged_elements@ == old(self).annotation_map.tagged_elements@.insert(id.0, new_tagged_element@),
            r is Err ==> r == Result::<(), DocError>::Err(DocError::DuplicateID) && *final(self)
                == *old(self),
            final(self).annotation_map.shotlines == old(self).annotation_map.shotlines,
            final(self).annotation_map.tags == old(self).annotation_map.tags,
            final(self).annotation_map.groups == old(self).annotation_map.groups,
            final(self).annotation_map.shot_setups == old(self).annotation_map.shot_setups,
            final(self).command_history == old(self).command_history,
            final(self).screenplay == old(self).screenplay,
    {
        self.annotation_map.tagged_elements.add(id.0, new_tagged_element)
    }

    /// Replaces the tagged element under an ID; succeeds iff the ID is
    /// present, and fails with `NotFound` otherwise.
    pub fn modify_tagged_element(&mut self, id: TaggedElementID, new_tagged_element: TaggedElement)
        -> (r: Result<(), DocError>)
        ensures
            r is Ok <==> old(self).annotation_map.tagged_elements@.contains_key(id.0),
            r is Ok ==> final(self).annotation_map.tagged_elements@ == old(self).annotation_map.tagged_elements@.insert(id.0, new_tagged_element@),
            r is Err ==> r == Result::<(), DocError>::Err(DocError::NotFound) && *final(self)
                == *old(self),
            final(self).annotation_map.shotlines == old(self).annotation_map.shotlines,
            final(self).annotation_map.tags == old(self).annotation_map.tags,
            final(self).annotation_map.groups == old(self).annotation_map.groups,
            final(self).annotation_map.shot_setups == old(self).annotation_map.shot_setups,
            final(self).command_history == old(self).command_history,
            final(self).screenplay == old(self).screenplay,
    {
        match self.annotation_map.tagged_elements.modify(id.0, new_tagged_element) {
            Ok(_prior) => Ok(()),
            Err(e) => Err(e),
        }
    }

    /// Removes the tagged element under an ID; succeeds iff the ID is
    /// present, and fails with `NotFound` otherwise.
    pub fn remove_tagged_element(&mut self, id: TaggedElementID) -> (r: Result<(), DocError>)
        ensures
            r is Ok <==> old(self).annotation_map.tagged_elements@.contains_key(id.0),
            r is Ok ==> final(self).annotation_map.tagged_elements@ == old(self).annotation_map.tagged_elements@.remove(id.0),
            r is Err ==> r == Result::<(), DocError>::Err(DocError::NotFound) && *final(self)
                == *old(self),
            final(self).annotation_map.shotlines == old(self).annotation_map.shotlines,
            final(self).annotation_map.tags == old(self).annotation_map.tags,
            final(self).annotation_map.groups == old(self).annotation_map.groups,
            final(self).annotation_map.shot_setups == old(self).annotation_map.shot_setups,
            final(self).command_history == old(self).command_history,
            final(self).screenplay == old(self).screenplay,
    {
        match self.annotation_map.tagged_elements.remove(id.0) {
            Ok(_prior) => Ok(()),
            Err(e) => Err(e),
        }
    }

    /// Adds a tag under a caller-supplied ID; succeeds iff the ID is
    /// absent, and fails with `DuplicateID` otherwise. Existing tagged
    /// elements are never touched.
    pub fn add_tag(&mut self, tag: Tag, id: TagID) -> (r: Result<(), DocError>)
        ensures
            r is Ok <==> !old(self).annotation_map.tags@.contains_key(id.0),
            r is Ok ==> final(self).annotation_map.tags@ == old(self).annotation_map.tags@.insert(id.0, tag@),
            r is Err ==> r == Result::<(), DocError>::Err(DocError::DuplicateID) && *final(self)
                == *old(self),
            final(self).annotation_map.shotlines == old(self).annotation_map.shotlines,
            final(self).annotation_map.groups == old(self).annotation_map.groups,
            final(self).annotation_map.tagged_elements == old(self).annotation_map.tagged_elements,
            final(self).annotation_map.shot_setups == old(self).annotation_map.shot_setups,
            final(self).command_history == old(self).command_history,
            final(self).screenplay == old(self).screenplay,
    {
        self.annotation_map.tags.add(id.0, tag)
    }

    /// Replaces the tag under an ID; succeeds iff the ID is present,
    /// and fails with `NotFound` otherwise.
    pub fn modify_tag(&mut self, new_tag: Tag, id: TagID) -> (r: Result<(), DocError>)
        ensures
            r is Ok <==> old(self).annotation_map.tags@.contains_key(id.0),
            r is Ok ==> final(self).annotation_map.tags@ == old(self).annotation_map.tags@.insert(id.0, new_tag@),
            r is Err ==> r == Result::<(), DocError>::Err(DocError::NotFound) && *final(self)
                == *old(self),
            final(self).annotation_map.shotlines == old(self).annotation_map.shotlines,
            final(self).annotation_map.groups == old(self).annotation_map.groups,
            final(self).annotation_map.tagged_elements == old(self).annotation_map.tagged_elements,
            final(self).annotation_map.shot_setups == old(self).annotation_map.shot_setups,
            final(self).command_history == old(self).command_history,
            final(self).screenplay == old(self).screenplay,
    {
        match self.annotation_map.tags.modify(id.0, new_tag) {
            Ok(_prior) => Ok(()),
            Err(e) => Err(e),
        }
    }

    /// Removes the tag under an ID; succeeds iff the ID is present,
    /// and fails with `NotFound` otherwise. This does not cascade into
    /// existing tagged elements: dangling references are left for the
    /// resolver to filter at read time.
    pub fn remove_tag(&mut self, id: TagID) -> (r: Result<(), DocError>)
        ensures
            r is Ok <==> old(self).annotation_map.tags@.contains_key(id.0),
            r is Ok ==> final(self).annotation_map.tags@ == old(self).annotation_map.tags@.remove(id.0),
            r is Err ==> r == Result::<(), DocError>::Err(DocError::NotFound) && *final(self)
                == *old(self),
            final(self).annotation_map.shotlines == old(self).annotation_map.shotlines,
            final(self).annotation_map.groups == old(self).annotation_map.groups,
            final(self).annotation_map.tagged_elements == old(self).annotation_map.tagged_elements,
            final(self).annotation_map.shot_setups == old(self).annotation_map.shot_setups,
            final(self).command_history == old(self).command_history,
            final(self).screenplay == old(self).screenplay,
    {
        match self.annotation_map.tags.remove(id.0) {
            Ok(_prior) => Ok(()),
            Err(e) => Err(e),
        }
    }

    /// Adds a shotline to this document under a caller-supplied ID,
    /// instead of generating its own, because this function is used in
    /// a higher-level command pattern: a command and its eventual undo
    /// must agree on identity. Succeeds iff the ID is absent, and
    /// fails with `DuplicateID` otherwise.
    pub fn add_shotline(&mut self, shotline: Shot, id: ShotID) -> (r: Result<(), DocError>)
        ensures
            r is Ok <==> !old(self).annotation_map.shotlines@.contains_key(id.0),
            r is Ok ==> final(self).annotation_map.shotlines@ == old(self).annotation_map.shotlines@.insert(id.0, shotline@),
            r is Err ==> r == Result::<(), DocError>::Err(DocError::DuplicateID) && *final(self)
                == *old(self),
            final(self).annotation_map.tags == old(self).annotation_map.tags,
            final(self).annotation_map.groups == old(self).annotation_map.groups,
            final(self).annotation_map.tagged_elements == old(self).annotation_map.tagged_elements,
            final(self).annotation_map.shot_setups == old(self).annotation_map.shot_setups,
            final(self).command_history == old(self).command_history,
            final(self).screenplay == old(self).screenplay,
    {
        self.annotation_map.shotlines.add(id.0, shotline)
    }

    /// Replaces the shotline under an ID; succeeds iff the ID is
    /// present, and fails with `NotFound` otherwise.
    pub fn modify_shotline(&mut self, id: &ShotID, new_shotline: Shot) -> (r: Result<(), DocError>)
        ensures
            r is Ok <==> old(self).annotation_map.shotlines@.contains_key(id.0),
            r is Ok ==> final(self).annotation_map.shotlines@ == old(self).annotation_map.shotlines@.insert(id.0, new_shotline@),
            r is Err ==> r == Result::<(), DocError>::Err(DocError::NotFound) && *final(self)
                == *old(self),
            final(self).annotation_map.tags == old(self).annotation_map.tags,
            final(self).annotation_map.groups == old(self).annotation_map.groups,
            final(self).annotation_map.tagged_elements == old(self).annotation_map.tagged_elements,
            final(self).annotation_map.shot_setups == old(self).annotation_map.shot_setups,
            final(self).command_history == old(self).command_history,
            final(self).screenplay == old(self).screenplay,
    {
        match self.annotation_map.shotlines.modify(id.0, new_shotline) {
            Ok(_prior) => Ok(()),
            Err(e) => Err(e),
        }
    }

    /// Removes the shotline under an ID; succeeds iff the ID is
    /// present, and fails with `NotFound` otherwise.
    pub fn remove_shotline(&mut self, id: &ShotID) -> (r: Result<(), DocError>)
        ensures
            r is Ok <==> old(self).annotation_map.shotlines@.contains_key(id.0),
            r is Ok ==> final(self).annotation_map.shotlines@ == old(self).annotation_map.shotlines@.remove(id.0),
            r is Err ==> r == Result::<(), DocError>::Err(DocError::NotFound) && *final(self)
                == *old(self),
            final(self).annotation_map.tags == old(self).annotation_map.tags,
            final(self).annotation_map.groups == old(self).annotation_map.groups,
            final(self).annotation_map.tagged_elements == old(self).annotation_map.tagged_elements,
            final(self).annotation_map.shot_setups == old(self).annotation_map.shot_setups,
            final(self).command_history == old(self).command_history,
            final(self).screenplay == old(self).screenplay,
    {
        match self.annotation_map.shotlines.remove(id.0) {
            Ok(_prior) => Ok(()),
            Err(e) => Err(e),
        }
    }

    /// Executes an intent through the installed command history: the
    /// matching store operation runs against the annotation map and,
    /// on success, the command is recorded for undo.
    pub fn execute(&mut self, intent: Intent) -> (r: Result<CommandHistoryStatus, DocError>)
        requires
            old(self).wf(),
            old(self).command_history is Some,
        ensures
            final(self).wf(),
            final(self).command_history is Some,
            final(self).screenplay == old(self).screenplay,
            r is Ok <==> crate::commands::intent_enabled(old(self).annotation_map@, intent),
            r is Ok ==> r->Ok_0 == CommandHistoryStatus::ExecuteSuccess && final(self).annotation_map@ == crate::commands::apply_forward(
                old(self).annotation_map@,
                crate::commands::command_of_intent(old(self).annotation_map@, intent),
            ) && final(self).command_history->Some_0@ == crate::commands::history_push(
                old(self).command_history->Some_0@,
                crate::commands::command_of_intent(old(self).annotation_map@, intent),
            ),
            r is Err ==> r->Err_0 == crate::commands::intent_error(intent) && final(self).annotation_map == old(self).annotation_map && final(self).command_history == old(self).command_history,
    {
        match &mut self.command_history {
            Some(h) => h.execute(&mut self.annotation_map, intent),
            None => unreached(),
        }
    }

    /// Undoes the most recent applied command through the installed
    /// command history.
    pub fn undo(&mut self) -> (r: Result<CommandHistoryStatus, DocError>)
        requires
            old(self).wf(),
            old(self).command_history is Some,
        ensures
            final(self).wf(),
            final(self).command_history is Some,
            final(self).screenplay == old(self).screenplay,
            old(self).command_history->Some_0@.cursor == 0 ==> r == Result::<
                CommandHistoryStatus,
                DocError,
            >::Ok(CommandHistoryStatus::UndoLimitReached) && final(self).annotation_map == old(self).annotation_map && final(self).command_history == old(self).command_history,
            old(self).command_history->Some_0@.cursor > 0 ==> {
                let h = old(self).command_history->Some_0@;
                let c = h.history[h.cursor - 1];
                if crate::commands::inverse_enabled(old(self).annotation_map@, c) {
                    r == Result::<CommandHistoryStatus, DocError>::Ok(
                        CommandHistoryStatus::UndoSuccess,
                    ) && final(self).annotation_map@ == crate::commands::apply_inverse(
                        old(self).annotation_map@,
                        c,
                    ) && final(self).command_history->Some_0@ == (crate::commands::HistoryModel {
                        cursor: (h.cursor - 1) as nat,
                        ..h
                    })
                } else {
                    r == Result::<CommandHistoryStatus, DocError>::Err(
                        crate::commands::inverse_error(c),
                    ) && final(self).annotation_map == old(self).annotation_map && final(self).command_history == old(self).command_history
                }
            },
    {
        match &mut self.command_history {
            Some(h) => h.undo(&mut self.annotation_map),
            None => unreached(),
        }
    }

    /// Redoes the next retained undone command through the installed
    /// command history.
    pub fn redo(&mut self) -> (r: Result<CommandHistoryStatus, DocError>)
        requires
            old(self).wf(),
            old(self).command_history is Some,
        ensures
            final(self).wf(),
            final(self).command_history is Some,
            final(self).screenplay == old(self).screenplay,
            old(self).command_history->Some_0@.cursor == old(self).command_history->Some_0@.history.len() ==> r == Result::<
                CommandHistoryStatus,
                DocError,
            >::Ok(CommandHistoryStatus::RedoLimitReached) && final(self).annotation_map == old(self).annotation_map && final(self).command_history == old(self).command_history,
            old(self).command_history->Some_0@.cursor < old(self).command_history->Some_0@.history.len() ==> {
                let h = old(self).command_history->Some_0@;
                let c = h.history[h.cursor as int];
                if crate::commands::forward_enabled(old(self).annotation_map@, c) {
                    r == Result::<CommandHistoryStatus, DocError>::Ok(
                        CommandHistoryStatus::ExecuteSuccess,
                    ) && final(self).annotation_map@ == crate::commands::apply_forward(
                        old(self).annotation_map@,
                        c,
                    ) && final(self).command_history->Some_0@ == (crate::commands::HistoryModel {
                        cursor: h.cursor + 1,
                        ..h
                    })
                } else {
                    r == Result::<CommandHistoryStatus, DocError>::Err(
                        crate::commands::forward_error(c),
                    ) && final(self).annotation_map == old(self).annotation_map && final(self).command_history == old(self).command_history
                }
            },
    {
        match &mut self.command_history {
            Some(h) => h.redo(&mut self.annotation_map),
            None => unreached(),
        }
    }

    /// The resolved tag list of a tagged element: its stored
    /// references with every ID absent from the Tag store dropped, in
    /// original relative order. The stored element is not touched.
    pub fn get_resolved_tags(&self, id: &TaggedElementID) -> (r: Result<Vec<TagID>, DocError>)
        ensures
            r is Ok <==> self.annotation_map.tagged_elements@.contains_key(id.0),
            r is Ok ==> r->Ok_0@ == self.annotation_map.tagged_elements@[id.0].tags.filter(
                |t: TagID| self.annotation_map.tags@.contains_key(t.0),
            ),
            r is Err ==> r == Result::<Vec<TagID>, DocError>::Err(DocError::NotFound),
    {
        match self.annotation_map.tagged_elements.get(id.0) {
            Ok(te) => Ok(resolve_tag_references(&te.tags, &self.annotation_map.tags)),
            Err(e) => Err(e),
        }
    }

    /// Housekeeping write-back: replaces a tagged element's stored tag
    /// list with its resolved form. An optimization only; reads are
    /// already consistent without it.
    pub fn prune_tagged_element_tags(&mut self, id: &TaggedElementID) -> (r: Result<(), DocError>)
        ensures
            r is Ok <==> old(self).annotation_map.tagged_elements@.contains_key(id.0),
            r is Ok ==> {
                let te = old(self).annotation_map.tagged_elements@[id.0];
                final(self).annotation_map.tagged_elements@ == old(self).annotation_map.tagged_elements@.insert(
                    id.0,
                    TaggedElementView {
                        tags: te.tags.filter(
                            |t: TagID| old(self).annotation_map.tags@.contains_key(t.0),
                        ),
                        ..te
                    },
                )
            },
            r is Err ==> r == Result::<(), DocError>::Err(DocError::NotFound) && *final(self)
                == *old(self),
            final(self).annotation_map.shotlines == old(self).annotation_map.shotlines,
            final(self).annotation_map.tags == old(self).annotation_map.tags,
            final(self).annotation_map.groups == old(self).annotation_map.groups,
            final(self).annotation_map.shot_setups == old(self).annotation_map.shot_setups,
            final(self).command_history == old(self).command_history,
            final(self).screenplay == old(self).screenplay,
    {
        match self.annotation_map.tagged_elements.remove(id.0) {
            Ok(te) => {
                let new_tags = resolve_tag_references(&te.tags, &self.annotation_map.tags);
                let pruned = TaggedElement {
                    ocurrances: te.ocurrances,
                    origin: te.origin,
                    endpoint: te.endpoint,
                    tags: new_tags,
                };
                let put_back = self.annotation_map.tagged_elements.add(id.0, pruned);
                match put_back {
                    Ok(_) => {
                        proof {
                            assert(final(self).annotation_map.tagged_elements@ =~= old(self).annotation_map.tagged_elements@.insert(
                                id.0,
                                TaggedElementView {
                                    tags: old(self).annotation_map.tagged_elements@[id.0].tags.filter(
                                        |t: TagID| old(self).annotation_map.tags@.contains_key(
                                            t.0,
                                        ),
                                    ),
                                    ..old(self).annotation_map.tagged_elements@[id.0]
                                },
                            ));
                        }
                        Ok(())
                    },
                    Err(_) => unreached(),
                }
            },
            Err(e) => Err(e),
        }
    }
}

/// Lazy-healing law: a materialized tag list never contains an ID
/// absent from the Tag store at read time. In particular, after a tag
/// is removed from the store, resolving any stored reference list
/// yields a list from which that ID is absent, without touching the
/// owning TaggedElement.
pub proof fn lemma_resolved_tags_exclude_removed(
    tag_map: Map<u128, TagView>,
    stored: Seq<TagID>,
    t: TagID,
)
    ensures
        !stored.filter(
            |x: TagID| tag_map.remove(t.0).contains_key(x.0),
        ).contains(t),
{
    let pred = |x: TagID| tag_map.remove(t.0).contains_key(x.0);
    let filtered = stored.filter(pred);
    if filtered.contains(t) {
        let i = choose|i: int| 0 <= i < filtered.len() && filtered[i] == t;
        stored.lemma_filter_pred(pred, i);
        assert(pred(t));
        assert(false);
    }
}

} // verus!
