use cubescene::scene::{
    check_well_formed, make_gltf_scene_pickable, set_pickable_recursive, SceneGraph, SceneNode,
};

fn node(parent: Option<usize>, has_mesh: bool, pickable: bool, pending: bool) -> SceneNode {
    SceneNode { parent, has_mesh, pickable, pending }
}

/// A tagged root with a small loaded hierarchy under it: two mesh leaves,
/// one plain grouping node with a mesh grandchild.
fn loaded_scene() -> SceneGraph {
    SceneGraph {
        nodes: vec![
            node(None, false, false, true),      // 0: tagged root
            node(Some(0), true, false, false),   // 1: mesh child
            node(Some(0), false, false, false),  // 2: grouping child
            node(Some(2), true, false, false),   // 3: mesh grandchild
            node(None, true, false, false),      // 4: unrelated, outside the tree
        ],
    }
}

#[test]
fn propagation_marks_mesh_descendants_and_drops_the_tag() {
    let mut scene = loaded_scene();
    assert!(check_well_formed(&scene));
    make_gltf_scene_pickable(&mut scene);
    assert!(!scene.nodes[0].pickable); // the root itself carries no mesh
    assert!(!scene.nodes[0].pending); // tag dropped: traversal ran
    assert!(scene.nodes[1].pickable);
    assert!(!scene.nodes[2].pickable); // no mesh, no flag
    assert!(scene.nodes[3].pickable);
    assert!(!scene.nodes[4].pickable); // outside the tagged subtree
}

#[test]
fn propagation_twice_is_a_no_op() {
    let mut scene = loaded_scene();
    make_gltf_scene_pickable(&mut scene);
    let after_first = scene.clone();
    make_gltf_scene_pickable(&mut scene);
    assert_eq!(scene, after_first);
}

#[test]
fn childless_root_is_skipped_and_retried() {
    // The scene has not materialized yet: the tag must survive, so a later
    // invocation can catch the children once they exist.
    let mut scene = SceneGraph { nodes: vec![node(None, false, false, true)] };
    make_gltf_scene_pickable(&mut scene);
    assert!(scene.nodes[0].pending);
    assert!(!scene.nodes[0].pickable);

    // The children arrive; the next invocation fires and clears the tag.
    scene.nodes.push(node(Some(0), true, false, false));
    make_gltf_scene_pickable(&mut scene);
    assert!(!scene.nodes[0].pending);
    assert!(scene.nodes[1].pickable);
}

#[test]
fn already_pickable_stays_pickable() {
    let mut scene = loaded_scene();
    scene.nodes[1].pickable = true;
    make_gltf_scene_pickable(&mut scene);
    assert!(scene.nodes[1].pickable);
    assert!(scene.nodes[3].pickable);
}

#[test]
fn untagged_scene_is_untouched() {
    let mut scene = loaded_scene();
    scene.nodes[0].pending = false;
    let before = scene.clone();
    make_gltf_scene_pickable(&mut scene);
    assert_eq!(scene, before);
}

#[test]
fn single_root_marking_stays_inside_the_subtree() {
    let mut scene = loaded_scene();
    set_pickable_recursive(&mut scene, 2);
    assert!(!scene.nodes[0].pickable);
    assert!(!scene.nodes[1].pickable); // sibling subtree untouched
    assert!(!scene.nodes[2].pickable); // the root itself is not marked
    assert!(scene.nodes[3].pickable);
    assert!(!scene.nodes[4].pickable);
    assert!(scene.nodes[0].pending); // the tag is not this function's business
}

#[test]
fn single_root_marking_twice_is_a_no_op() {
    let mut scene = loaded_scene();
    set_pickable_recursive(&mut scene, 0);
    let after_first = scene.clone();
    set_pickable_recursive(&mut scene, 0);
    assert_eq!(scene, after_first);
}

#[test]
fn well_formedness_check_refuses_forward_parents() {
    let good = loaded_scene();
    assert!(check_well_formed(&good));
    let bad = SceneGraph {
        nodes: vec![node(Some(1), false, false, false), node(None, false, false, false)],
    };
    assert!(!check_well_formed(&bad));
    let self_parent = SceneGraph { nodes: vec![node(Some(0), false, false, false)] };
    assert!(!check_well_formed(&self_parent));
}
