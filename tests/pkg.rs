use workspace_snapshot::pkg_node::{CategoryNode, PackageNode, PkgNode, PropNode, SchemaNode, SchemaVariantNode};
use workspace_snapshot::pkg_prop_tree::{PkgPropNode, PkgPropTreeBuilder, PkgSchemaVariant, PropKind};

fn names(nodes: &[PkgPropNode]) -> Vec<String> {
    nodes.iter().map(|n| n.name().clone()).collect()
}

fn prop(name: &str, kind: PropKind) -> PkgPropNode {
    PkgPropNode::new(name.to_string(), kind)
}

#[test]
fn empty_path_inserts_under_domain() {
    let mut tree = PkgPropTreeBuilder::default();
    assert!(tree.domain_children().is_empty());
    tree.insert_prop("", prop("name", PropKind::String));
    tree.insert_prop("/", prop("region", PropKind::String));
    assert_eq!(names(&tree.domain_children()), vec!["name", "region"]);
}

#[test]
fn nested_paths_follow_names() {
    let mut tree = PkgPropTreeBuilder::default();
    tree.insert_prop("", prop("spec", PropKind::Object));
    tree.insert_prop("/spec", prop("containers", PropKind::Array));
    tree.insert_prop("spec//containers/", prop("container", PropKind::Object));
    tree.insert_prop("/spec/containers/container", prop("image", PropKind::String));
    let top = tree.domain_children();
    assert_eq!(names(&top), vec!["spec"]);
    let spec = top[0].children();
    assert_eq!(names(&spec), vec!["containers"]);
    assert_eq!(spec[0].kind(), PropKind::Array);
    let container = spec[0].children();
    assert_eq!(names(&container), vec!["container"]);
    assert_eq!(names(&container[0].children()), vec!["image"]);
}

#[test]
fn missing_parent_leaves_tree_unchanged() {
    let mut tree = PkgPropTreeBuilder::default();
    tree.insert_prop("", prop("a", PropKind::Object));
    tree.insert_prop("/b", prop("x", PropKind::Integer));
    tree.insert_prop("/a/x", prop("y", PropKind::Boolean));
    let top = tree.domain_children();
    assert_eq!(names(&top), vec!["a"]);
    assert!(top[0].children().is_empty());
}

#[test]
fn first_child_of_a_name_is_taken() {
    let mut tree = PkgPropTreeBuilder::default();
    tree.insert_prop("", prop("dup", PropKind::Object));
    tree.insert_prop("", prop("dup", PropKind::KeyValueMap));
    tree.insert_prop("/dup", prop("child", PropKind::String));
    let top = tree.domain_children();
    assert_eq!(top[0].children().len(), 1);
    assert_eq!(top[0].kind(), PropKind::Object);
    assert!(top[1].children().is_empty());
}

#[test]
fn schema_variant_holds_props() {
    let mut tree = PkgPropTreeBuilder::default();
    tree.insert_prop("", prop("p", PropKind::String));
    let v = PkgSchemaVariant::new("Docker Image".to_string(), tree.domain_children());
    assert_eq!(v.schema_name, "Docker Image");
    assert_eq!(names(&v.props), vec!["p"]);
}

#[test]
fn node_kind_strings() {
    let n = |s: &str| s.to_string();
    assert_eq!(PkgNode::Category(CategoryNode { name: n("c") }).node_kind_str(), "category");
    assert_eq!(PkgNode::Package(PackageNode { name: n("p") }).node_kind_str(), "package");
    assert_eq!(PkgNode::Prop(PropNode { name: n("q") }).node_kind_str(), "prop");
    assert_eq!(PkgNode::Schema(SchemaNode { name: n("s") }).node_kind_str(), "schema");
    assert_eq!(
        PkgNode::SchemaVariant(SchemaVariantNode { name: n("v") }).node_kind_str(),
        "schema_variant"
    );
    assert_eq!(PkgNode::Schema(SchemaNode { name: n("s") }).name(), "s");
    assert_eq!(PkgNode::CATEGORY_KIND_STR, "category");
}
