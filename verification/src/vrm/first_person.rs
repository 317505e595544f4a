//! `VRMC_vrm.firstPerson` mesh annotations: how each mesh of a VRM is shown in
//! first-person view.
//!
//! The annotations name glTF nodes by index; [`FirstPersonMeshRegistry::new`]
//! resolves them to mesh names once, when the VRM is built, and the spawn step
//! then tags the mesh entity of each name.
use vstd::prelude::*;

use bevy::platform::collections::HashMap;
use bevy::platform::hash::FixedHasher;

use crate::text::str_equals;

verus! {

#[verifier::external_type_specification]
#[verifier::external_body]
#[verifier::reject_recursive_types(K)]
#[verifier::reject_recursive_types(V)]
#[verifier::reject_recursive_types(S)]
pub struct ExHashMap<K, V, S>(HashMap<K, V, S>);

#[verifier::external_type_specification]
#[verifier::external_body]
pub struct ExFixedHasher(FixedHasher);

/// How a mesh is shown in first-person view (`meshAnnotations[].type`).
#[derive(Debug, Clone, Copy, PartialEq, Eq, Hash, Structural)]
pub enum FirstPersonType {
    /// Decided by the renderer from the head bone's skinning.
    Auto,
    /// Shown in both first- and third-person view.
    Both,
    /// Shown in third-person view only.
    ThirdPersonOnly,
    /// Shown in first-person view only.
    FirstPersonOnly,
    /// A type this crate does not know (for forward compatibility).
    Unknown,
}

impl FirstPersonType {
    /// The type named by an annotation's `type` string; any name other than
    /// the four of VRM 1.0 gives `Unknown`.
    pub open spec fn spec_from_name(name: Seq<char>) -> FirstPersonType {
        if name == "auto"@ {
            FirstPersonType::Auto
        } else if name == "both"@ {
            FirstPersonType::Both
        } else if name == "thirdPersonOnly"@ {
            FirstPersonType::ThirdPersonOnly
        } else if name == "firstPersonOnly"@ {
            FirstPersonType::FirstPersonOnly
        } else {
            FirstPersonType::Unknown
        }
    }

    /// Reads an annotation's `type` string: `"auto"`, `"both"`,
    /// `"thirdPersonOnly"`, `"firstPersonOnly"`; anything else is `Unknown`.
    pub fn from_name(name: &str) -> (r: FirstPersonType)
        ensures
            r == Self::spec_from_name(name@),
    {
        if str_equals(name, "auto") {
            FirstPersonType::Auto
        } else if str_equals(name, "both") {
            FirstPersonType::Both
        } else if str_equals(name, "thirdPersonOnly") {
            FirstPersonType::ThirdPersonOnly
        } else if str_equals(name, "firstPersonOnly") {
            FirstPersonType::FirstPersonOnly
        } else {
            FirstPersonType::Unknown
        }
    }

    /// A mesh of this type starts hidden when the VRM is spawned: only
    /// `FirstPersonOnly` meshes, which the third-person view must not show.
    pub fn hidden_on_spawn(self) -> (r: bool)
        ensures
            r == (self == FirstPersonType::FirstPersonOnly),
    {
        match self {
            FirstPersonType::FirstPersonOnly => true,
            _ => false,
        }
    }
}

/// The four VRM 1.0 type names read as their types; every other string is
/// `Unknown`.
pub proof fn lemma_first_person_type_names(other: Seq<char>)
    ensures
        FirstPersonType::spec_from_name(seq!['a', 'u', 't', 'o']) == FirstPersonType::Auto,
        FirstPersonType::spec_from_name(seq!['b', 'o', 't', 'h']) == FirstPersonType::Both,
        FirstPersonType::spec_from_name(seq!['t', 'h', 'i', 'r', 'd', 'P', 'e', 'r', 's', 'o', 'n', 'O', 'n', 'l', 'y']) == FirstPersonType::ThirdPersonOnly,
        FirstPersonType::spec_from_name(seq!['f', 'i', 'r', 's', 't', 'P', 'e', 'r', 's', 'o', 'n', 'O', 'n', 'l', 'y']) == FirstPersonType::FirstPersonOnly,
        other != seq!['a', 'u', 't', 'o'] && other != seq!['b', 'o', 't', 'h'] && other != seq!['t', 'h', 'i', 'r', 'd', 'P', 'e', 'r', 's', 'o', 'n', 'O', 'n', 'l', 'y'] && other
            != seq!['f', 'i', 'r', 's', 't', 'P', 'e', 'r', 's', 'o', 'n', 'O', 'n', 'l', 'y'] ==> FirstPersonType::spec_from_name(other) == FirstPersonType::Unknown,
{
    reveal_strlit("auto");
    reveal_strlit("both");
    reveal_strlit("thirdPersonOnly");
    reveal_strlit("firstPersonOnly");
    assert("auto"@ =~= seq!['a', 'u', 't', 'o']);
    assert("both"@ =~= seq!['b', 'o', 't', 'h']);
    assert("thirdPersonOnly"@ =~= seq!['t', 'h', 'i', 'r', 'd', 'P', 'e', 'r', 's', 'o', 'n', 'O', 'n', 'l', 'y']);
    assert("firstPersonOnly"@ =~= seq!['f', 'i', 'r', 's', 't', 'P', 'e', 'r', 's', 'o', 'n', 'O', 'n', 'l', 'y']);
}

/// One entry of `VRMC_vrm.firstPerson.meshAnnotations`.
#[derive(Debug, Clone, Copy, PartialEq, Eq, Structural)]
pub struct MeshAnnotation {
    /// Index of the annotated glTF node.
    pub node: u32,
    /// How that node's mesh is shown in first-person view.
    pub first_person_type: FirstPersonType,
}

/// `VRMC_vrm.firstPerson`.
#[derive(Debug, Clone)]
pub struct FirstPerson {
    pub mesh_annotations: Vec<MeshAnnotation>,
}

/// The contents of a mesh-name table: mesh name to first-person type.
pub uninterp spec fn mesh_type_table(m: HashMap<String, FirstPersonType, FixedHasher>) -> Map<
    Seq<char>,
    FirstPersonType,
>;

/// The table with no entry.
pub open spec fn empty_mesh_table() -> Map<Seq<char>, FirstPersonType> {
    Map::empty()
}

/// `bevy::platform::collections::HashMap::new`: an empty map.
#[verifier::external_body]
fn new_table() -> (r: HashMap<String, FirstPersonType, FixedHasher>)
    ensures
        mesh_type_table(r) == empty_mesh_table(),
{
    HashMap::new()
}

/// `bevy::platform::collections::HashMap::insert`: afterwards `k` maps to `v`
/// (replacing any earlier value) and every other key keeps its value.
#[verifier::external_body]
fn table_insert(m: &mut HashMap<String, FirstPersonType, FixedHasher>, k: String, v: FirstPersonType)
    ensures
        mesh_type_table(*final(m)) == mesh_type_table(*old(m)).insert(k@, v),
{
    m.insert(k, v);
}

/// `bevy::platform::collections::HashMap::get`: the value of `k`, if any.
#[verifier::external_body]
fn table_get(m: &HashMap<String, FirstPersonType, FixedHasher>, k: &String) -> (r: Option<
    FirstPersonType,
>)
    ensures
        r == (if mesh_type_table(*m).dom().contains(k@) {
            Some(mesh_type_table(*m)[k@])
        } else {
            None
        }),
{
    m.get(k).copied()
}

/// `bevy::platform::collections::HashMap::len`: the number of keys.
#[verifier::external_body]
fn table_len(m: &HashMap<String, FirstPersonType, FixedHasher>) -> (r: usize)
    ensures
        r == mesh_type_table(*m).len(),
{
    m.len()
}

/// `bevy::platform::collections::HashMap::iter`, each entry copied out: every
/// key once, with its value, in the map's own (unspecified) order.
#[verifier::external_body]
fn table_entries(m: &HashMap<String, FirstPersonType, FixedHasher>) -> (r: Vec<(String, FirstPersonType)>)
    ensures
        r@.len() == mesh_type_table(*m).len(),
        forall|i: int|
            0 <= i < r@.len() ==> mesh_type_table(*m).dom().contains((#[trigger] r@[i]).0@)
                && mesh_type_table(*m)[r@[i].0@] == r@[i].1,
        forall|i: int, j: int| 0 <= i < j < r@.len() ==> (#[trigger] r@[i]).0@ != (#[trigger] r@[j]).0@,
        forall|k: Seq<char>| #[trigger]
            mesh_type_table(*m).dom().contains(k) ==> exists|i: int| 0 <= i < r@.len() && (#[trigger] r@[i]).0@ == k,
{
    m.iter().map(|(k, v)| (k.clone(), *v)).collect()
}

/// The mesh name that an annotation resolves to: the name of its node, when
/// the index is in range and the node is loaded.
pub open spec fn annotation_mesh_name(a: MeshAnnotation, node_names: Seq<Option<String>>) -> Option<Seq<char>> {
    if (a.node as int) < node_names.len() && node_names[a.node as int] is Some {
        Some(node_names[a.node as int]->0@)
    } else {
        None
    }
}

/// The table built from the annotations in order; an annotation that resolves
/// to no mesh is skipped, and a later one for the same mesh name replaces an
/// earlier one.
pub open spec fn spec_mesh_table(anns: Seq<MeshAnnotation>, node_names: Seq<Option<String>>) -> Map<Seq<char>, FirstPersonType>
    decreases anns.len(),
{
    if anns.len() == 0 {
        Map::empty()
    } else {
        let prev = spec_mesh_table(anns.drop_last(), node_names);
        match annotation_mesh_name(anns.last(), node_names) {
            Some(name) => prev.insert(name, anns.last().first_person_type),
            None => prev,
        }
    }
}

/// The table for an optional `firstPerson` extension (empty without one).
pub open spec fn spec_registry(first_person: Option<FirstPerson>, node_names: Seq<Option<String>>) -> Map<Seq<char>, FirstPersonType> {
    match first_person {
        Some(fp) => spec_mesh_table(fp.mesh_annotations@, node_names),
        None => Map::empty(),
    }
}

/// Mesh name to first-person type, built from a VRM's `firstPerson`
/// annotations.
pub struct FirstPersonMeshRegistry(HashMap<String, FirstPersonType, FixedHasher>);

impl View for FirstPersonMeshRegistry {
    type V = Map<Seq<char>, FirstPersonType>;

    closed spec fn view(&self) -> Map<Seq<char>, FirstPersonType> {
        mesh_type_table(self.0)
    }
}

impl FirstPersonMeshRegistry {
    /// Resolves the annotations of `first_person` to mesh names.
    ///
    /// `node_names[i]` is the name of glTF node `i`, or `None` when that node
    /// asset is not loaded. An annotation whose node index is out of range or
    /// whose node is not loaded is skipped; when several annotations resolve to
    /// the same name, the last one wins. Without `firstPerson` the registry is
    /// empty.
    pub fn new(first_person: &Option<FirstPerson>, node_names: &Vec<Option<String>>) -> (r: Self)
        ensures
            r@ == spec_registry(*first_person, node_names@),
    {
        let mut table = new_table();
        match first_person {
            None => {},
            Some(fp) => {
                let anns = &fp.mesh_annotations;
                let mut i: usize = 0;
                while i < anns.len()
                    invariant
                        i <= anns@.len(),
                        mesh_type_table(table) == spec_mesh_table(anns@.take(i as int), node_names@),
                    decreases anns@.len() - i,
                {
                    let a = anns[i];
                    assert(anns@.take(i + 1).drop_last() =~= anns@.take(i as int));
                    assert(anns@.take(i + 1).last() == a);
                    let idx = a.node as usize;
                    if idx < node_names.len() {
                        match &node_names[idx] {
                            Some(name) => {
                                table_insert(&mut table, name.clone(), a.first_person_type);
                            },
                            None => {},
                        }
                    }
                    i = i + 1;
                }
                assert(anns@.take(anns@.len() as int) =~= anns@);
            },
        }
        FirstPersonMeshRegistry(table)
    }

    /// The first-person type annotated for the mesh called `name`.
    pub fn get(&self, name: &String) -> (r: Option<FirstPersonType>)
        ensures
            r == (if self@.dom().contains(name@) { Some(self@[name@]) } else { None }),
    {
        table_get(&self.0, name)
    }

    /// The number of annotated mesh names.
    pub fn len(&self) -> (r: usize)
        ensures
            r == self@.len(),
    {
        table_len(&self.0)
    }

    /// Whether no mesh is annotated.
    pub fn is_empty(&self) -> (r: bool)
        ensures
            r == (self@.len() == 0),
    {
        table_len(&self.0) == 0
    }

    /// Every annotated mesh name once, with its type, in unspecified order.
    pub fn entries(&self) -> (r: Vec<(String, FirstPersonType)>)
        ensures
            r@.len() == self@.len(),
            forall|i: int|
                0 <= i < r@.len() ==> self@.dom().contains((#[trigger] r@[i]).0@) && self@[r@[i].0@]
                    == r@[i].1,
            forall|i: int, j: int| 0 <= i < j < r@.len() ==> (#[trigger] r@[i]).0@ != (#[trigger] r@[j]).0@,
            forall|k: Seq<char>| #[trigger]
                self@.dom().contains(k) ==> exists|i: int| 0 <= i < r@.len() && (#[trigger] r@[i]).0@ == k,
    {
        table_entries(&self.0)
    }
}

/// A mesh name is in the table exactly when some annotation's node index is in
/// range and names a loaded node of that name, and its type is that of the last
/// such annotation (later annotations for the same mesh replace earlier ones).
pub proof fn lemma_mesh_table_is_last_annotation(anns: Seq<MeshAnnotation>, node_names: Seq<Option<String>>, name: Seq<char>)
    ensures
        spec_mesh_table(anns, node_names).dom().contains(name) <==> exists|i: int|
            #![trigger anns[i]]
            0 <= i < anns.len() && ((anns[i].node as int) < node_names.len() && node_names[anns[i].node as int] is Some && node_names[anns[i].node as int]->0@ == name),
        spec_mesh_table(anns, node_names).dom().contains(name) ==> exists|i: int|
            #![trigger anns[i]]
            0 <= i < anns.len() && ((anns[i].node as int) < node_names.len() && node_names[anns[i].node as int] is Some && node_names[anns[i].node as int]->0@ == name)
                && spec_mesh_table(anns, node_names)[name] == anns[i].first_person_type
                && forall|j: int| #![trigger anns[j]] i < j < anns.len() ==> !(((anns[j].node as int) < node_names.len() && node_names[anns[j].node as int] is Some && node_names[anns[j].node as int]->0@ == name)),
{
    lemma_mesh_table_last_resolving(anns, node_names, name);
    assert forall|k: int| 0 <= k < anns.len() implies (annotation_mesh_name(#[trigger] anns[k], node_names) == Some(name) <==> ((anns[k].node as int) < node_names.len() && node_names[anns[k].node as int] is Some && node_names[anns[k].node as int]->0@ == name)) by {}
}

proof fn lemma_mesh_table_last_resolving(anns: Seq<MeshAnnotation>, node_names: Seq<Option<String>>, name: Seq<char>)
    ensures
        spec_mesh_table(anns, node_names).dom().contains(name) <==> exists|i: int|
            0 <= i < anns.len() && #[trigger] annotation_mesh_name(anns[i], node_names) == Some(name),
        spec_mesh_table(anns, node_names).dom().contains(name) ==> exists|i: int|
            0 <= i < anns.len() && #[trigger] annotation_mesh_name(anns[i], node_names) == Some(name)
                && spec_mesh_table(anns, node_names)[name] == anns[i].first_person_type
                && forall|j: int| i < j < anns.len() ==> annotation_mesh_name(#[trigger] anns[j], node_names) != Some(name),
    decreases anns.len(),
{
    if anns.len() > 0 {
        let init = anns.drop_last();
        lemma_mesh_table_last_resolving(init, node_names, name);
        let last = anns.len() - 1;
        assert(anns[last] == anns.last());
        assert forall|i: int| 0 <= i < init.len() implies #[trigger] anns[i] == init[i] by {}
        if annotation_mesh_name(anns.last(), node_names) == Some(name) {
            assert(annotation_mesh_name(anns[last], node_names) == Some(name));
        } else {
            if spec_mesh_table(anns, node_names).dom().contains(name) {
                let i = choose|i: int|
                    0 <= i < init.len() && #[trigger] annotation_mesh_name(init[i], node_names) == Some(name)
                        && spec_mesh_table(init, node_names)[name] == init[i].first_person_type
                        && forall|j: int| i < j < init.len() ==> annotation_mesh_name(#[trigger] init[j], node_names) != Some(name);
                assert(annotation_mesh_name(anns[i], node_names) == Some(name));
                assert forall|j: int| i < j < anns.len() implies annotation_mesh_name(#[trigger] anns[j], node_names) != Some(name) by {
                    if j < init.len() {
                        assert(anns[j] == init[j]);
                    }
                }
            }
            if exists|i: int| 0 <= i < anns.len() && #[trigger] annotation_mesh_name(anns[i], node_names) == Some(name) {
                let i = choose|i: int| 0 <= i < anns.len() && #[trigger] annotation_mesh_name(anns[i], node_names) == Some(name);
                assert(i != last);
                assert(annotation_mesh_name(init[i], node_names) == Some(name));
            }
        }
    }
}

} // verus!
